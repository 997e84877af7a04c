use harmonic::action::stateful::{ActionState, Directive, Event, StatefulAction};
use harmonic::action::{ActionError, ActionErrorKind, ActionTag};

/// An action that counts how often its work is really done.
struct Counting {
    executed: usize,
    reverted: usize,
    fails: bool,
}

impl Counting {
    fn new() -> Counting {
        Counting { executed: 0, reverted: 0, fails: false }
    }

    fn failing() -> Counting {
        Counting { executed: 0, reverted: 0, fails: true }
    }

    fn outcome(&self) -> Result<(), ActionError> {
        if self.fails {
            Err(ActionError::new(ActionTag("counting"), ActionErrorKind::UnknownUrlScheme))
        } else {
            Ok(())
        }
    }
}

/// Executes as a caller does: begins, does the work where it is delegated,
/// and settles.
fn execute(stateful: &mut StatefulAction<Counting>, work: &mut Counting) -> Result<(), ActionError> {
    match stateful.execute(Event::Begin) {
        Directive::Return(result) => result,
        Directive::Delegate => {
            work.executed += 1;
            match stateful.execute(Event::Settled(work.outcome())) {
                Directive::Return(result) => result,
                Directive::Delegate => panic!("settling delegates nothing"),
            }
        },
    }
}

fn revert(stateful: &mut StatefulAction<Counting>, work: &mut Counting) -> Result<(), ActionError> {
    match stateful.revert(Event::Begin) {
        Directive::Return(result) => result,
        Directive::Delegate => {
            work.reverted += 1;
            match stateful.revert(Event::Settled(work.outcome())) {
                Directive::Return(result) => result,
                Directive::Delegate => panic!("settling delegates nothing"),
            }
        },
    }
}

#[test]
fn executing_twice_does_the_work_once() {
    let mut stateful = StatefulAction::uncompleted(Counting::new());
    let mut work = Counting::new();
    assert!(execute(&mut stateful, &mut work).is_ok());
    assert_eq!(stateful.state(), ActionState::Completed);
    assert!(execute(&mut stateful, &mut work).is_ok());
    assert!(execute(&mut stateful, &mut work).is_ok());
    assert_eq!(work.executed, 1);
    assert_eq!(stateful.state(), ActionState::Completed);
}

#[test]
fn a_completed_action_is_not_executed() {
    let mut stateful = StatefulAction::completed(Counting::new());
    let mut work = Counting::new();
    assert!(execute(&mut stateful, &mut work).is_ok());
    assert_eq!(work.executed, 0);
}

#[test]
fn a_failed_execution_is_reported_and_can_be_tried_again() {
    let mut stateful = StatefulAction::uncompleted(Counting::new());
    let mut work = Counting::failing();
    let error = execute(&mut stateful, &mut work).unwrap_err();
    assert!(matches!(error.kind(), ActionErrorKind::UnknownUrlScheme));
    assert_eq!(*error.action_tag(), ActionTag("counting"));
    assert_eq!(stateful.state(), ActionState::Uncompleted);
    work.fails = false;
    assert!(execute(&mut stateful, &mut work).is_ok());
    assert_eq!(work.executed, 2);
    assert_eq!(stateful.state(), ActionState::Completed);
}

#[test]
fn an_action_that_was_not_executed_is_not_reverted() {
    let mut stateful = StatefulAction::uncompleted(Counting::new());
    let mut work = Counting::new();
    assert!(revert(&mut stateful, &mut work).is_ok());
    assert_eq!(work.reverted, 0);
    assert_eq!(stateful.state(), ActionState::Uncompleted);
}

#[test]
fn reverting_twice_does_the_work_once() {
    let mut stateful = StatefulAction::completed(Counting::new());
    let mut work = Counting::new();
    assert!(revert(&mut stateful, &mut work).is_ok());
    assert!(revert(&mut stateful, &mut work).is_ok());
    assert_eq!(work.reverted, 1);
    assert_eq!(stateful.state(), ActionState::Uncompleted);
}

#[test]
fn a_failed_revert_leaves_the_action_completed() {
    let mut stateful = StatefulAction::completed(Counting::new());
    let mut work = Counting::failing();
    assert!(revert(&mut stateful, &mut work).is_err());
    assert_eq!(stateful.state(), ActionState::Completed);
    work.fails = false;
    assert!(revert(&mut stateful, &mut work).is_ok());
    assert_eq!(work.reverted, 2);
    assert_eq!(stateful.state(), ActionState::Uncompleted);
}

#[test]
fn a_reverted_action_is_executed_afresh() {
    let mut stateful = StatefulAction::uncompleted(Counting::new());
    let mut work = Counting::new();
    assert!(execute(&mut stateful, &mut work).is_ok());
    assert!(revert(&mut stateful, &mut work).is_ok());
    assert!(execute(&mut stateful, &mut work).is_ok());
    assert_eq!((work.executed, work.reverted), (2, 1));
}

#[test]
fn settling_hands_the_outcome_on() {
    let mut stateful = StatefulAction::uncompleted(7u8);
    assert!(stateful.executed(Ok(())).is_ok());
    assert_eq!(stateful.state(), ActionState::Completed);
    let failed = ActionError::new(ActionTag("seven"), ActionErrorKind::UnknownUrlScheme);
    let error = stateful.reverted(Err(failed)).unwrap_err();
    assert_eq!(*error.action_tag(), ActionTag("seven"));
    assert_eq!(stateful.state(), ActionState::Completed);
    assert!(stateful.reverted(Ok(())).is_ok());
    assert_eq!(stateful.state(), ActionState::Uncompleted);
    assert_eq!(*stateful.inner(), 7);
    assert_eq!(stateful.into_inner(), 7);
}

#[test]
fn an_action_is_wrapped_as_not_carried_out() {
    let stateful = StatefulAction::from("create_directory");
    assert_eq!(stateful.state(), ActionState::Uncompleted);
    assert_eq!(*stateful.inner(), "create_directory");
    let stateful: StatefulAction<u8> = 9.into();
    assert_eq!(stateful.state(), ActionState::Uncompleted);
}

#[test]
fn working_on_the_action_leaves_the_flag() {
    let mut stateful = StatefulAction::completed(Counting::new());
    stateful.inner_mut().executed = 5;
    assert_eq!(stateful.inner().executed, 5);
    assert_eq!(stateful.state(), ActionState::Completed);
}
