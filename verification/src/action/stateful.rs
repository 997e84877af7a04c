//! An action together with the record of whether it has been carried out.

use vstd::prelude::*;
use crate::action::ActionError;

verus! {

/// Whether an action's effect is on the host.
#[derive(Debug, Clone, Copy, PartialEq, Eq, Structural)]
pub enum ActionState {
    /// The action was executed with success and has not been reverted since.
    Completed,
    /// The action was never executed with success, or was reverted.
    Uncompleted,
}

/// What a stateful action is told.
#[derive(Debug)]
pub enum Event {
    /// Someone wants the action executed, or reverted.
    Begin,
    /// The action's own work, begun on a `Delegate`, has ended like this.
    Settled(Result<(), ActionError>),
}

/// What a stateful action answers.
#[derive(Debug)]
pub enum Directive {
    /// Carry out the action's own work, then report how it ended.
    Delegate,
    /// Nothing is left to do; this is the result.
    Return(Result<(), ActionError>),
}

/// An action and its completion flag. The flag changes only here.
#[derive(Debug)]
pub struct StatefulAction<A> {
    action: A,
    state: ActionState,
}

/// How executing answers `event` under `flag`, and the flag that follows.
///
/// A completed action is not executed again. Work that settles with success
/// completes the action; a failure leaves the flag as it was.
pub open spec fn execute_rule(flag: ActionState, event: Event) -> (ActionState, Directive) {
    match event {
        Event::Begin => match flag {
            ActionState::Completed => (flag, Directive::Return(Ok(()))),
            ActionState::Uncompleted => (flag, Directive::Delegate),
        },
        Event::Settled(outcome) => match outcome {
            Ok(_) => (ActionState::Completed, Directive::Return(outcome)),
            Err(_) => (flag, Directive::Return(outcome)),
        },
    }
}

/// How reverting answers `event` under `flag`, and the flag that follows.
///
/// An action that is not completed has nothing to undo. A revert that settles
/// with success clears the flag; a failure leaves it, so that the revert can
/// be tried again.
pub open spec fn revert_rule(flag: ActionState, event: Event) -> (ActionState, Directive) {
    match event {
        Event::Begin => match flag {
            ActionState::Uncompleted => (flag, Directive::Return(Ok(()))),
            ActionState::Completed => (flag, Directive::Delegate),
        },
        Event::Settled(outcome) => match outcome {
            Ok(_) => (ActionState::Uncompleted, Directive::Return(outcome)),
            Err(_) => (flag, Directive::Return(outcome)),
        },
    }
}

impl<A> StatefulAction<A> {
    /// The action that is wrapped.
    pub closed spec fn action(self) -> A {
        self.action
    }

    /// The completion flag.
    pub closed spec fn flag(self) -> ActionState {
        self.state
    }

    /// Wraps an action that has not been carried out.
    pub fn uncompleted(action: A) -> (stateful: Self)
        ensures
            stateful.action() == action,
            stateful.flag() == ActionState::Uncompleted,
    {
        StatefulAction { action, state: ActionState::Uncompleted }
    }

    /// Wraps an action whose effect is already on the host.
    pub fn completed(action: A) -> (stateful: Self)
        ensures
            stateful.action() == action,
            stateful.flag() == ActionState::Completed,
    {
        StatefulAction { action, state: ActionState::Completed }
    }

    /// Gives up the flag and hands out the action.
    pub fn into_inner(self) -> (action: A)
        ensures
            action == self.action(),
    {
        self.action
    }

    pub fn inner(&self) -> (action: &A)
        ensures
            *action == self.action(),
    {
        &self.action
    }

    /// The wrapped action, to work on. The flag is out of reach.
    pub fn inner_mut(&mut self) -> (action: &mut A)
        ensures
            *action == old(self).action(),
            final(self).action() == *final(action),
            final(self).flag() == old(self).flag(),
    {
        &mut self.action
    }

    pub fn state(&self) -> (flag: ActionState)
        ensures
            flag == self.flag(),
    {
        self.state
    }

    /// Records how the action's own execution ended, and hands the outcome
    /// on: success completes the action, a failure leaves the flag as it was.
    pub fn executed(&mut self, outcome: Result<(), ActionError>) -> (result: Result<
        (),
        ActionError,
    >)
        ensures
            result == outcome,
            final(self).action() == old(self).action(),
            (final(self).flag(), Directive::Return(result)) == execute_rule(
                old(self).flag(),
                Event::Settled(outcome),
            ),
    {
        if outcome.is_ok() {
            self.state = ActionState::Completed;
        }
        outcome
    }

    /// Records how the action's own revert ended, and hands the outcome on:
    /// success clears the flag, a failure leaves it as it was.
    pub fn reverted(&mut self, outcome: Result<(), ActionError>) -> (result: Result<
        (),
        ActionError,
    >)
        ensures
            result == outcome,
            final(self).action() == old(self).action(),
            (final(self).flag(), Directive::Return(result)) == revert_rule(
                old(self).flag(),
                Event::Settled(outcome),
            ),
    {
        if outcome.is_ok() {
            self.state = ActionState::Uncompleted;
        }
        outcome
    }

    /// One step of executing: see `execute_rule`. The wrapped action is never
    /// changed.
    pub fn execute(&mut self, event: Event) -> (directive: Directive)
        ensures
            final(self).action() == old(self).action(),
            (final(self).flag(), directive) == execute_rule(old(self).flag(), event),
    {
        match event {
            Event::Begin => match self.state {
                ActionState::Completed => Directive::Return(Ok(())),
                ActionState::Uncompleted => Directive::Delegate,
            },
            Event::Settled(outcome) => Directive::Return(self.executed(outcome)),
        }
    }

    /// One step of reverting: see `revert_rule`. The wrapped action is never
    /// changed.
    pub fn revert(&mut self, event: Event) -> (directive: Directive)
        ensures
            final(self).action() == old(self).action(),
            (final(self).flag(), directive) == revert_rule(old(self).flag(), event),
    {
        match event {
            Event::Begin => match self.state {
                ActionState::Uncompleted => Directive::Return(Ok(())),
                ActionState::Completed => Directive::Delegate,
            },
            Event::Settled(outcome) => Directive::Return(self.reverted(outcome)),
        }
    }
}

impl<A> From<A> for StatefulAction<A> {
    /// An action that is wrapped has not been carried out.
    fn from(action: A) -> (stateful: Self)
        ensures
            stateful.action() == action,
            stateful.flag() == ActionState::Uncompleted,
    {
        StatefulAction { action, state: ActionState::Uncompleted }
    }
}

impl<A> vstd::std_specs::convert::FromSpecImpl<A> for StatefulAction<A> {
    open spec fn obeys_from_spec() -> bool {
        true
    }

    closed spec fn from_spec(action: A) -> Self {
        StatefulAction { action, state: ActionState::Uncompleted }
    }
}

/// An action is executed at most once: whatever the flag was, once the
/// action's work has settled with success, to begin executing again returns
/// success at once and delegates nothing, and the flag stays as it is.
pub proof fn lemma_execute_at_most_once(flag: ActionState)
    ensures
        ({
            let settled = execute_rule(flag, Event::Settled(Ok(()))).0;
            execute_rule(settled, Event::Begin) == (settled, Directive::Return(Ok(())))
        }),
{
}

/// A failed execution can be tried again: it leaves an action that was not
/// completed as it was, and to begin again delegates the work once more.
pub proof fn lemma_failed_execute_is_retried(error: ActionError)
    ensures
        ({
            let failed = execute_rule(ActionState::Uncompleted, Event::Settled(Err(error))).0;
            execute_rule(failed, Event::Begin) == (ActionState::Uncompleted, Directive::Delegate)
        }),
{
}

/// Reverting undoes executing, and no more than once: after a revert has
/// settled with success the action can be executed afresh, and to begin
/// reverting again returns success at once.
pub proof fn lemma_revert_clears(flag: ActionState)
    ensures
        ({
            let cleared = revert_rule(flag, Event::Settled(Ok(()))).0;
            &&& execute_rule(cleared, Event::Begin) == (cleared, Directive::Delegate)
            &&& revert_rule(cleared, Event::Begin) == (cleared, Directive::Return(Ok(())))
        }),
{
}

/// A failed revert can be tried again: it leaves a completed action
/// completed, and to begin reverting again delegates the work once more.
pub proof fn lemma_failed_revert_is_retried(error: ActionError)
    ensures
        ({
            let failed = revert_rule(ActionState::Completed, Event::Settled(Err(error))).0;
            revert_rule(failed, Event::Begin) == (ActionState::Completed, Directive::Delegate)
        }),
{
}

} // verus!
