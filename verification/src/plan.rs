//! A plan: the actions of an installation, in the order in which they are
//! executed. What has been carried out of a plan is recorded in the
//! completion flags of its actions and nowhere else.

use vstd::prelude::*;
use crate::action::stateful::{ActionState, StatefulAction};
use crate::action::ActionError;

verus! {

/// What a run over a plan does next.
#[derive(Debug, Clone, Copy, PartialEq, Eq, Structural)]
pub enum Next {
    /// Carry out the work of the action at this index, then settle it.
    Run(usize),
    /// A stop was requested: nothing more is started.
    Cancelled,
    /// Nothing is left to do.
    Finished,
}

/// The actions of an installation, first to last.
#[derive(Debug)]
pub struct InstallPlan<A> {
    pub actions: Vec<StatefulAction<A>>,
}

/// Every flag is `Completed`.
pub open spec fn all_completed(flags: Seq<ActionState>) -> bool {
    forall|i: int| 0 <= i < flags.len() ==> flags[i] == ActionState::Completed
}

/// No flag is `Completed`.
pub open spec fn none_completed(flags: Seq<ActionState>) -> bool {
    forall|i: int| 0 <= i < flags.len() ==> flags[i] == ActionState::Uncompleted
}

/// The flag at `index` is the first that is not `Completed`.
pub open spec fn is_first_uncompleted(flags: Seq<ActionState>, index: int) -> bool {
    &&& 0 <= index < flags.len()
    &&& flags[index] == ActionState::Uncompleted
    &&& forall|i: int| 0 <= i < index ==> flags[i] == ActionState::Completed
}

/// The flag at `index` is the last that is `Completed`.
pub open spec fn is_last_completed(flags: Seq<ActionState>, index: int) -> bool {
    &&& 0 <= index < flags.len()
    &&& flags[index] == ActionState::Completed
    &&& forall|i: int| index < i < flags.len() ==> flags[i] == ActionState::Uncompleted
}

/// What installing does next: the first action that is not completed is run,
/// unless a stop was requested; with every action completed nothing is left.
pub open spec fn install_rule(flags: Seq<ActionState>, stop_requested: bool, next: Next) -> bool {
    match next {
        Next::Run(index) => !stop_requested && is_first_uncompleted(flags, index as int),
        Next::Cancelled => stop_requested && !all_completed(flags),
        Next::Finished => all_completed(flags),
    }
}

/// What uninstalling does next: the last action that is completed is
/// reverted, unless a stop was requested; with no action completed nothing is
/// left.
pub open spec fn uninstall_rule(flags: Seq<ActionState>, stop_requested: bool, next: Next) -> bool {
    match next {
        Next::Run(index) => !stop_requested && is_last_completed(flags, index as int),
        Next::Cancelled => stop_requested && !none_completed(flags),
        Next::Finished => none_completed(flags),
    }
}

/// The flags after the action that installing ran has settled: on success the
/// first flag that was not `Completed` is; on failure nothing changes.
pub open spec fn install_settled(flags: Seq<ActionState>, succeeded: bool) -> Seq<ActionState> {
    Seq::new(
        flags.len(),
        |i: int|
            if succeeded && is_first_uncompleted(flags, i) {
                ActionState::Completed
            } else {
                flags[i]
            },
    )
}

/// The flags after the action that uninstalling reverted has settled: on
/// success the last flag that was `Completed` is cleared; on failure nothing
/// changes.
pub open spec fn uninstall_settled(flags: Seq<ActionState>, succeeded: bool) -> Seq<ActionState> {
    Seq::new(
        flags.len(),
        |i: int|
            if succeeded && is_last_completed(flags, i) {
                ActionState::Uncompleted
            } else {
                flags[i]
            },
    )
}

impl<A> InstallPlan<A> {
    /// The completion flags of the actions, in order.
    pub open spec fn flags(self) -> Seq<ActionState> {
        Seq::new(self.actions@.len(), |i: int| self.actions@[i].flag())
    }

    /// The actions themselves, in order, without their flags.
    pub open spec fn steps(self) -> Seq<A> {
        Seq::new(self.actions@.len(), |i: int| self.actions@[i].action())
    }

    pub fn new(actions: Vec<StatefulAction<A>>) -> (plan: Self)
        ensures
            plan.actions == actions,
    {
        InstallPlan { actions }
    }

    /// The action at `index`, if the plan is that long.
    pub fn action(&self, index: usize) -> (found: Option<&StatefulAction<A>>)
        ensures
            match found {
                Some(stateful) => index < self.actions@.len() && *stateful
                    == self.actions@[index as int],
                None => index >= self.actions@.len(),
            },
    {
        if index < self.actions.len() {
            Some(&self.actions[index])
        } else {
            None
        }
    }

    /// The index of the first action that is not completed.
    pub fn first_uncompleted(&self) -> (found: Option<usize>)
        ensures
            match found {
                Some(index) => is_first_uncompleted(self.flags(), index as int),
                None => all_completed(self.flags()),
            },
    {
        let mut index: usize = 0;
        while index < self.actions.len()
            invariant
                index <= self.actions@.len(),
                forall|i: int| 0 <= i < index ==> self.flags()[i] == ActionState::Completed,
            decreases self.actions@.len() - index,
        {
            match self.actions[index].state() {
                ActionState::Uncompleted => {
                    return Some(index);
                },
                ActionState::Completed => {},
            }
            index += 1;
        }
        None
    }

    /// The index of the last action that is completed.
    pub fn last_completed(&self) -> (found: Option<usize>)
        ensures
            match found {
                Some(index) => is_last_completed(self.flags(), index as int),
                None => none_completed(self.flags()),
            },
    {
        let mut index: usize = self.actions.len();
        while index > 0
            invariant
                index <= self.actions@.len(),
                forall|i: int|
                    index <= i < self.actions@.len() ==> self.flags()[i]
                        == ActionState::Uncompleted,
            decreases index,
        {
            index -= 1;
            match self.actions[index].state() {
                ActionState::Completed => {
                    return Some(index);
                },
                ActionState::Uncompleted => {},
            }
        }
        None
    }

    /// Installing, one decision: see `install_rule`.
    pub fn install_next(&self, stop_requested: bool) -> (next: Next)
        ensures
            install_rule(self.flags(), stop_requested, next),
    {
        match self.first_uncompleted() {
            None => Next::Finished,
            Some(index) => if stop_requested {
                Next::Cancelled
            } else {
                Next::Run(index)
            },
        }
    }

    /// Uninstalling, one decision: see `uninstall_rule`.
    pub fn uninstall_next(&self, stop_requested: bool) -> (next: Next)
        ensures
            uninstall_rule(self.flags(), stop_requested, next),
    {
        match self.last_completed() {
            None => Next::Finished,
            Some(index) => if stop_requested {
                Next::Cancelled
            } else {
                Next::Run(index)
            },
        }
    }

    /// Records how the action that installing ran has ended, and hands the
    /// outcome on. The action is the first that is not completed; on success
    /// it is completed now, on failure every flag is as it was. No action is
    /// changed or moved.
    pub fn install_settle(&mut self, outcome: Result<(), ActionError>) -> (result: Result<
        (),
        ActionError,
    >)
        ensures
            result == outcome,
            final(self).steps() == old(self).steps(),
            final(self).flags() == install_settled(old(self).flags(), outcome is Ok),
    {
        match self.first_uncompleted() {
            None => outcome,
            Some(index) => {
                let result = self.actions[index].executed(outcome);
                assert(self.steps() =~= old(self).steps());
                assert(self.flags() =~= install_settled(old(self).flags(), outcome is Ok));
                result
            },
        }
    }

    /// Records how the action that uninstalling reverted has ended, and hands
    /// the outcome on. The action is the last that is completed; on success
    /// its flag is cleared now, on failure every flag is as it was. No action
    /// is changed or moved.
    pub fn uninstall_settle(&mut self, outcome: Result<(), ActionError>) -> (result: Result<
        (),
        ActionError,
    >)
        ensures
            result == outcome,
            final(self).steps() == old(self).steps(),
            final(self).flags() == uninstall_settled(old(self).flags(), outcome is Ok),
    {
        match self.last_completed() {
            None => outcome,
            Some(index) => {
                let result = self.actions[index].reverted(outcome);
                assert(self.steps() =~= old(self).steps());
                assert(self.flags() =~= uninstall_settled(old(self).flags(), outcome is Ok));
                result
            },
        }
    }
}

/// The flags and the stop request decide what installing does next: no two
/// answers satisfy the rule.
pub proof fn lemma_install_rule_decides(
    flags: Seq<ActionState>,
    stop_requested: bool,
    one: Next,
    other: Next,
)
    requires
        install_rule(flags, stop_requested, one),
        install_rule(flags, stop_requested, other),
    ensures
        one == other,
{
}

/// The flags and the stop request decide what uninstalling does next: no two
/// answers satisfy the rule.
pub proof fn lemma_uninstall_rule_decides(
    flags: Seq<ActionState>,
    stop_requested: bool,
    one: Next,
    other: Next,
)
    requires
        uninstall_rule(flags, stop_requested, one),
        uninstall_rule(flags, stop_requested, other),
    ensures
        one == other,
{
}

/// Once a stop is requested nothing is started, whatever the flags: neither
/// verb runs an action.
pub proof fn lemma_stop_starts_nothing(flags: Seq<ActionState>, next: Next)
    requires
        install_rule(flags, true, next) || uninstall_rule(flags, true, next),
    ensures
        !(next is Run),
{
}

/// Installing goes strictly forward. When the action at `index` is run and
/// succeeds, it and all before it are completed, the flags behind it are as
/// they were, and whatever is run next comes later in the plan.
pub proof fn lemma_install_goes_forward(flags: Seq<ActionState>, index: int, later: int)
    requires
        is_first_uncompleted(flags, index),
    ensures
        forall|i: int| 0 <= i <= index ==> install_settled(flags, true)[i] == ActionState::Completed,
        forall|i: int| index < i < flags.len() ==> install_settled(flags, true)[i] == flags[i],
        is_first_uncompleted(install_settled(flags, true), later) ==> index < later,
{
}

/// Uninstalling goes strictly backward. When the action at `index` is
/// reverted and that succeeds, it and all behind it are not completed, the
/// flags before it are as they were, and whatever is reverted next comes
/// earlier in the plan.
pub proof fn lemma_uninstall_goes_backward(flags: Seq<ActionState>, index: int, earlier: int)
    requires
        is_last_completed(flags, index),
    ensures
        forall|i: int|
            index <= i < flags.len() ==> uninstall_settled(flags, true)[i]
                == ActionState::Uncompleted,
        forall|i: int| 0 <= i < index ==> uninstall_settled(flags, true)[i] == flags[i],
        is_last_completed(uninstall_settled(flags, true), earlier) ==> earlier < index,
{
}

/// A failure changes no flag, so what was completed before it can still be
/// found and reverted; and the action that failed is the one that is run, or
/// reverted, when the same verb is tried again.
pub proof fn lemma_failure_keeps_flags(flags: Seq<ActionState>)
    ensures
        install_settled(flags, false) == flags,
        uninstall_settled(flags, false) == flags,
{
    assert(install_settled(flags, false) =~= flags);
    assert(uninstall_settled(flags, false) =~= flags);
}

/// Uninstalling undoes installing, last first: the action that installing
/// has just completed is the one that uninstalling reverts next, and
/// reverting it gives back the flags from before it was run.
pub proof fn lemma_uninstall_undoes_install(flags: Seq<ActionState>, index: int)
    requires
        is_first_uncompleted(flags, index),
        forall|i: int| index < i < flags.len() ==> flags[i] == ActionState::Uncompleted,
    ensures
        is_last_completed(install_settled(flags, true), index),
        uninstall_settled(install_settled(flags, true), true) == flags,
{
    let installed = install_settled(flags, true);
    assert(is_last_completed(installed, index));
    assert(uninstall_settled(installed, true) =~= flags);
}

} // verus!
