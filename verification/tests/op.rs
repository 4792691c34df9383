use io_uring::opcode;
use io_uring::types::Fd;
use liten::op::{EventType, Tee};
use liten::op_progress::{Interest, OperationProgress, PollPlan, PollStep, RunOutcome};

#[test]
fn tee_keeps_its_arguments() {
    let t = Tee::new(3, 4, 100);
    assert_eq!((t.fd_in(), t.fd_out(), t.size()), (3, 4, 100));
}

#[test]
fn tee_entry_is_the_io_uring_tee_entry() {
    let t = Tee::new(3, 4, 100);
    let expected = opcode::Tee::new(Fd(3), Fd(4), 100).build();
    assert_eq!(format!("{:?}", t.create_entry()), format!("{:?}", expected));
    let other = opcode::Nop::new().build();
    assert_ne!(format!("{:?}", t.create_entry()), format!("{:?}", other));
}

#[test]
fn new_picks_poller_interest_from_event_type() {
    match OperationProgress::new(5, "op", Some(EventType::Read)) {
        OperationProgress::Poll { interest, id, operation } => {
            assert_eq!(interest, Interest { key: 5, readable: true, writable: false });
            assert_eq!(id, 5);
            assert_eq!(operation, "op");
        },
        _ => panic!("expected a poller operation"),
    }
    match OperationProgress::new(6, "op", Some(EventType::Write)) {
        OperationProgress::Poll { interest, .. } => {
            assert_eq!(interest, Interest { key: 6, readable: false, writable: true });
        },
        _ => panic!("expected a poller operation"),
    }
    assert!(matches!(OperationProgress::new(7, "op", None), OperationProgress::Blocking { operation: "op" }));
}

#[test]
fn uring_progress_checks_registration_and_detaches() {
    let p: OperationProgress<()> = OperationProgress::new_uring(42);
    assert_eq!(p.poll_plan(), PollPlan::CheckRegistration(42));
    assert_eq!(p.detach(), Some(42));
    let b = OperationProgress::new_blocking(());
    assert_eq!(b.poll_plan(), PollPlan::Run);
    assert_eq!(b.detach(), None);
}

#[test]
fn poller_progress_detaches_its_registration() {
    let p = OperationProgress::new(11, (), Some(EventType::Write));
    assert_eq!(p.detach(), Some(11));
}

#[test]
fn completed_operation_is_handed_out_once_and_never_runs_again() {
    let mut p = OperationProgress::new(12, "op", Some(EventType::Read));
    assert_eq!(p.poll_plan(), PollPlan::Run);
    assert_eq!(p.complete(), Some("op"));
    assert_eq!(p.poll_plan(), PollPlan::Finished);
    assert_eq!(p.complete(), None);
    assert_eq!(p.detach(), Some(12));

    let mut b = OperationProgress::new_blocking("blocking");
    assert_eq!(b.complete(), Some("blocking"));
    assert_eq!(b.poll_plan(), PollPlan::Finished);
    assert_eq!(b.detach(), None);

    let mut u: OperationProgress<&str> = OperationProgress::new_uring(13);
    assert_eq!(u.complete(), None);
    assert_eq!(u.poll_plan(), PollPlan::Finished);
    assert_eq!(u.detach(), Some(13));
}

#[test]
fn poller_operation_waits_only_on_would_block_or_in_progress() {
    let p = OperationProgress::new(9, (), Some(EventType::Read));
    let interest = Interest { key: 9, readable: true, writable: false };
    assert_eq!(p.after_run(RunOutcome::Completed), PollStep::Ready);
    assert_eq!(
        p.after_run(RunOutcome::Failed { would_block: true, in_progress: false }),
        PollStep::Repoll { id: 9, interest }
    );
    assert_eq!(
        p.after_run(RunOutcome::Failed { would_block: false, in_progress: true }),
        PollStep::Repoll { id: 9, interest }
    );
    assert_eq!(
        p.after_run(RunOutcome::Failed { would_block: false, in_progress: false }),
        PollStep::Ready
    );
    assert_eq!(p.after_repoll(true), PollStep::Pending);
    assert_eq!(p.after_repoll(false), PollStep::Ready);
}

#[test]
fn blocking_operation_finishes_after_one_run() {
    let b = OperationProgress::new_blocking(());
    assert_eq!(
        b.after_run(RunOutcome::Failed { would_block: true, in_progress: true }),
        PollStep::Ready
    );
}

#[test]
fn task_handle_error_message() {
    assert_eq!(liten::task::TaskHandleError::BodyPanicked.message(), "task panicked");
}
