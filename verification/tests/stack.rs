//! Stack lifecycle tests.

use avalanche_ops::stack::{
    create_outcome, delete_outcome, DeleteResponse, Observation, PollStep, Poller, Stack,
    StackError, StackStatus,
};

#[test]
fn create_returns_in_progress() {
    let stack = create_outcome(String::from("c-vpc"), Ok(())).unwrap();
    assert_eq!(
        stack,
        Stack {
            name: String::from("c-vpc"),
            status: StackStatus::CreateInProgress,
        }
    );
}

#[test]
fn create_surfaces_rejection() {
    let r = create_outcome(String::from("c-vpc"), Err(String::from("malformed template")));
    assert_eq!(
        r,
        Err(StackError::Provider(String::from("malformed template")))
    );
}

#[test]
fn delete_is_idempotent() {
    // deleting a stack that never existed is success, not an error
    assert_eq!(delete_outcome(DeleteResponse::NotFound), Ok(()));
    assert_eq!(delete_outcome(DeleteResponse::Accepted), Ok(()));
    assert_eq!(
        delete_outcome(DeleteResponse::Refused(String::from("in use"))),
        Err(StackError::Provider(String::from("in use")))
    );
}

#[test]
fn poll_reaches_complete_before_timeout() {
    let mut poller = Poller::new(
        String::from("c-vpc"),
        StackStatus::CreateComplete,
        100,
        20,
    );
    for _ in 0..3 {
        let step = poller.observe(Observation::Status(StackStatus::CreateInProgress));
        assert_eq!(step, PollStep::Sleep(20));
    }
    let step = poller.observe(Observation::Status(StackStatus::CreateComplete));
    assert_eq!(
        step,
        PollStep::Done(Stack {
            name: String::from("c-vpc"),
            status: StackStatus::CreateComplete,
        })
    );
}

#[test]
fn poll_times_out_with_last_status() {
    let mut poller = Poller::new(String::from("c-vpc"), StackStatus::CreateComplete, 50, 20);
    assert_eq!(
        poller.observe(Observation::Status(StackStatus::CreateInProgress)),
        PollStep::Sleep(20)
    );
    assert_eq!(
        poller.observe(Observation::Status(StackStatus::CreateInProgress)),
        PollStep::Sleep(20)
    );
    assert_eq!(
        poller.observe(Observation::Status(StackStatus::CreateInProgress)),
        PollStep::Sleep(20)
    );
    // the deadline has passed: the failure carries the last observed status
    assert_eq!(
        poller.observe(Observation::Status(StackStatus::CreateInProgress)),
        PollStep::Fail(StackError::TimedOut(Some(StackStatus::CreateInProgress)))
    );
}

#[test]
fn poll_retries_query_errors() {
    let mut poller = Poller::new(String::from("c-vpc"), StackStatus::CreateComplete, 100, 20);
    assert_eq!(poller.observe(Observation::QueryError), PollStep::Sleep(20));
    assert_eq!(poller.observe(Observation::NotFound), PollStep::Sleep(20));
    let step = poller.observe(Observation::Status(StackStatus::CreateComplete));
    assert!(matches!(step, PollStep::Done(_)));
}

#[test]
fn poll_treats_missing_stack_as_deleted() {
    let mut poller = Poller::new(String::from("c-vpc"), StackStatus::DeleteComplete, 100, 20);
    let step = poller.observe(Observation::NotFound);
    assert_eq!(
        step,
        PollStep::Done(Stack {
            name: String::from("c-vpc"),
            status: StackStatus::DeleteComplete,
        })
    );
}

#[test]
fn poll_timeout_without_any_status() {
    let mut poller = Poller::new(String::from("c-vpc"), StackStatus::CreateComplete, 0, 20);
    assert_eq!(
        poller.observe(Observation::QueryError),
        PollStep::Fail(StackError::TimedOut(None))
    );
}
