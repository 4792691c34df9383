use vstd::prelude::*;
use crate::op::EventType;

verus! {

/// The readiness an operation is registered for with the poller, under a key.
#[derive(PartialEq, Eq, Structural, Clone, Copy, Debug)]
pub struct Interest {
    pub key: usize,
    pub readable: bool,
    pub writable: bool,
}

/// Interest in reading only.
pub open spec fn readable_interest(key: usize) -> Interest {
    Interest { key, readable: true, writable: false }
}

/// Interest in writing only.
pub open spec fn writable_interest(key: usize) -> Interest {
    Interest { key, readable: false, writable: true }
}

/// Where an I/O operation stands: submitted to io_uring under an id,
/// registered with the poller under an id, run on the calling thread, or
/// finished, with the driver registration it may still leave behind.
pub enum OperationProgress<T> {
    IoUring { id: u64 },
    Poll { interest: Interest, id: u64, operation: T },
    Blocking { operation: T },
    Finished { registration: Option<u64> },
}

/// How a poll of an operation starts.
#[derive(PartialEq, Eq, Structural, Clone, Copy, Debug)]
pub enum PollPlan {
    /// Ask the driver whether the io_uring submission with this id completed.
    CheckRegistration(u64),
    /// Run the operation on the calling thread.
    Run,
    /// The operation has finished already; there is nothing left to run.
    Finished,
}

/// What came of running an operation on the calling thread.
#[derive(PartialEq, Eq, Structural, Clone, Copy, Debug)]
pub enum RunOutcome {
    Completed,
    /// It failed; `would_block` and `in_progress` say whether the error was
    /// "would block" or "operation in progress".
    Failed { would_block: bool, in_progress: bool },
}

/// How a poll of an operation ends, or what it must do before it can.
#[derive(PartialEq, Eq, Structural, Clone, Copy, Debug)]
pub enum PollStep {
    /// The operation is finished; hand its result back.
    Ready,
    /// The operation waits for the poller to wake it.
    Pending,
    /// Register the operation again with the poller, for this interest.
    Repoll { id: u64, interest: Interest },
}

/// The step after running an operation in `p` with outcome `o`: a poller
/// operation whose error says it would block, or is in progress, waits for
/// readiness again; every other outcome finishes the operation.
pub open spec fn run_step<T>(p: OperationProgress<T>, o: RunOutcome) -> PollStep {
    match (p, o) {
        (OperationProgress::Poll { interest, id, .. }, RunOutcome::Failed { would_block, in_progress })
            => if would_block || in_progress {
            PollStep::Repoll { id, interest }
        } else {
            PollStep::Ready
        },
        _ => PollStep::Ready,
    }
}

/// The progress of an operation with key `id` that waits on the poller for
/// `event_type`, or runs on the calling thread when it waits for nothing.
pub open spec fn progress_for<T>(id: u64, operation: T, event_type: Option<EventType>) -> OperationProgress<T> {
    match event_type {
        Some(EventType::Read) => OperationProgress::Poll {
            interest: readable_interest(id as usize),
            id,
            operation,
        },
        Some(EventType::Write) => OperationProgress::Poll {
            interest: writable_interest(id as usize),
            id,
            operation,
        },
        None => OperationProgress::Blocking { operation },
    }
}

/// The id under which a driver knows the operation: its io_uring
/// submission or its poller registration; an operation run on the calling
/// thread has none.
pub open spec fn registration_of<T>(p: OperationProgress<T>) -> Option<u64> {
    match p {
        OperationProgress::IoUring { id } => Some(id),
        OperationProgress::Poll { id, .. } => Some(id),
        OperationProgress::Blocking { .. } => None,
        OperationProgress::Finished { registration } => registration,
    }
}

/// The operation itself, while it has not finished and runs on this thread.
pub open spec fn operation_of<T>(p: OperationProgress<T>) -> Option<T> {
    match p {
        OperationProgress::Poll { operation, .. } => Some(operation),
        OperationProgress::Blocking { operation } => Some(operation),
        _ => None,
    }
}

/// How a poll of `p` starts.
pub open spec fn plan_of<T>(p: OperationProgress<T>) -> PollPlan {
    match p {
        OperationProgress::IoUring { id } => PollPlan::CheckRegistration(id),
        OperationProgress::Finished { .. } => PollPlan::Finished,
        _ => PollPlan::Run,
    }
}

/// `p` once it has finished: it keeps only its driver registration.
pub open spec fn completed<T>(p: OperationProgress<T>) -> OperationProgress<T> {
    OperationProgress::Finished { registration: registration_of(p) }
}

impl<T> OperationProgress<T> {
    /// Progress of a submission to io_uring under `id`.
    pub fn new_uring(id: u64) -> (r: Self)
        ensures
            r == (OperationProgress::<T>::IoUring { id }),
    {
        OperationProgress::IoUring { id }
    }

    /// Progress of an operation run on the calling thread.
    pub fn new_blocking(operation: T) -> (r: Self)
        ensures
            r == (OperationProgress::Blocking { operation }),
    {
        OperationProgress::Blocking { operation }
    }

    /// Progress of an operation that waits on the poller for `event_type`,
    /// under key `id`; one that waits for nothing runs on the calling thread.
    pub fn new(id: u64, operation: T, event_type: Option<EventType>) -> (r: Self)
        ensures
            r == progress_for(id, operation, event_type),
    {
        match event_type {
            Some(kind) => {
                let key = id as usize;
                let interest = match kind {
                    EventType::Read => Interest { key, readable: true, writable: false },
                    EventType::Write => Interest { key, readable: false, writable: true },
                };
                OperationProgress::Poll { interest, id, operation }
            },
            None => OperationProgress::Blocking { operation },
        }
    }

    /// Lets go of the operation without waiting for it; returns the id under
    /// which the driver must forget it (its io_uring submission or its poller
    /// registration), if there is one.
    pub fn detach(self) -> (r: Option<u64>)
        ensures
            r == registration_of(self),
    {
        match self {
            OperationProgress::IoUring { id } => Some(id),
            OperationProgress::Poll { id, .. } => Some(id),
            OperationProgress::Blocking { .. } => None,
            OperationProgress::Finished { registration } => registration,
        }
    }

    /// How a poll starts: an io_uring submission asks the driver, a finished
    /// operation has nothing to do, and the others run.
    pub fn poll_plan(&self) -> (r: PollPlan)
        ensures
            r == plan_of(*self),
    {
        match self {
            OperationProgress::IoUring { id } => PollPlan::CheckRegistration(*id),
            OperationProgress::Finished { .. } => PollPlan::Finished,
            _ => PollPlan::Run,
        }
    }

    /// Marks the operation finished, when a poll has come out ready, and
    /// hands the operation out so that its result is made from it; an
    /// operation that is not on this thread, or has finished already, gives
    /// `None`. The driver registration stays, for `detach` to release.
    pub fn complete(&mut self) -> (r: Option<T>)
        ensures
            r == operation_of(*old(self)),
            *final(self) == completed(*old(self)),
    {
        let mut taken = OperationProgress::Finished { registration: None };
        std::mem::swap(self, &mut taken);
        match taken {
            OperationProgress::IoUring { id } => {
                *self = OperationProgress::Finished { registration: Some(id) };
                None
            },
            OperationProgress::Poll { id, operation, .. } => {
                *self = OperationProgress::Finished { registration: Some(id) };
                Some(operation)
            },
            OperationProgress::Blocking { operation } => {
                *self = OperationProgress::Finished { registration: None };
                Some(operation)
            },
            OperationProgress::Finished { registration } => {
                *self = OperationProgress::Finished { registration };
                None
            },
        }
    }

    /// The step after running the operation with outcome `outcome`.
    pub fn after_run(&self, outcome: RunOutcome) -> (r: PollStep)
        ensures
            r == run_step(*self, outcome),
    {
        match (self, outcome) {
            (
                OperationProgress::Poll { interest, id, .. },
                RunOutcome::Failed { would_block, in_progress },
            ) => {
                if would_block || in_progress {
                    PollStep::Repoll { id: *id, interest: *interest }
                } else {
                    PollStep::Ready
                }
            },
            _ => PollStep::Ready,
        }
    }

    /// The step after registering again with the poller: a failed
    /// registration finishes the operation with its error; otherwise it waits.
    pub fn after_repoll(&self, registered: bool) -> (r: PollStep)
        ensures
            r == (if registered {
                PollStep::Pending
            } else {
                PollStep::Ready
            }),
    {
        if registered {
            PollStep::Pending
        } else {
            PollStep::Ready
        }
    }
}

/// Running an operation never leaves it waiting by itself: a completed run,
/// and any run of an operation not registered with the poller, finishes it;
/// only a poller operation whose error says it would block or is in
/// progress goes back to the poller, under its own id and interest.
pub proof fn lemma_only_blocking_errors_wait<T>(p: OperationProgress<T>, o: RunOutcome)
    ensures
        run_step(p, o) != PollStep::Pending,
        run_step(p, RunOutcome::Completed) == PollStep::Ready,
        !(p is Poll) ==> run_step(p, o) == PollStep::Ready,
        run_step(p, o) is Repoll ==> {
            &&& p matches OperationProgress::Poll { interest, id, .. }
            &&& run_step(p, o) == (PollStep::Repoll { id, interest })
            &&& o matches RunOutcome::Failed { would_block, in_progress }
            &&& (would_block || in_progress)
        },
{
}

/// After a run of a poller operation, whatever readiness it waits for, a
/// failure that says it would block or is in progress sends it back to the
/// poller under its own id and interest, and every other outcome finishes it.
pub proof fn lemma_poller_retries_exactly_on_blocking_errors<T>(
    interest: Interest,
    id: u64,
    operation: T,
    would_block: bool,
    in_progress: bool,
)
    ensures
        (would_block || in_progress) ==> run_step(
            OperationProgress::Poll { interest, id, operation },
            RunOutcome::Failed { would_block, in_progress },
        ) == (PollStep::Repoll { id, interest }),
        !(would_block || in_progress) ==> run_step(
            OperationProgress::Poll { interest, id, operation },
            RunOutcome::Failed { would_block, in_progress },
        ) == PollStep::Ready,
        run_step(OperationProgress::Poll { interest, id, operation }, RunOutcome::Completed)
            == PollStep::Ready,
{
}

/// Completing an operation that runs on this thread hands that very
/// operation out, whatever readiness it waits for, so its result can be
/// made; one run elsewhere, or finished already, hands nothing out.
pub proof fn lemma_complete_hands_out_the_operation<T>(
    interest: Interest,
    id: u64,
    operation: T,
    registration: Option<u64>,
)
    ensures
        operation_of(OperationProgress::Poll { interest, id, operation }) == Some(operation),
        operation_of(OperationProgress::Blocking { operation }) == Some(operation),
        operation_of(OperationProgress::<T>::IoUring { id }) == None::<T>,
        operation_of(OperationProgress::<T>::Finished { registration }) == None::<T>,
        completed(OperationProgress::Poll { interest, id, operation }) == (OperationProgress::<
            T,
        >::Finished { registration: Some(id) }),
        completed(OperationProgress::Blocking { operation }) == (OperationProgress::<
            T,
        >::Finished { registration: None }),
{
}

/// An operation made to wait for readiness goes back to the poller under
/// its id as key, for exactly the readiness it was made for.
pub proof fn lemma_repoll_keeps_key_and_readiness<T>(id: u64, operation: T, kind: EventType)
    ensures
        run_step(
            progress_for(id, operation, Some(kind)),
            RunOutcome::Failed { would_block: true, in_progress: false },
        ) == (PollStep::Repoll {
            id,
            interest: Interest {
                key: id as usize,
                readable: kind == EventType::Read,
                writable: kind == EventType::Write,
            },
        }),
{
}

/// Once an operation has finished, no poll runs it again and it hands out
/// no operation again, so its result is made at most once; it still holds
/// its driver registration, for `detach` to release.
pub proof fn lemma_finished_runs_no_more<T>(p: OperationProgress<T>)
    ensures
        plan_of(completed(p)) == PollPlan::Finished,
        operation_of(completed(p)) == None::<T>,
        completed(completed(p)) == completed(p),
        registration_of(completed(p)) == registration_of(p),
        run_step(completed(p), RunOutcome::Completed) == PollStep::Ready,
{
}

} // verus!
