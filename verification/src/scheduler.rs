use vstd::prelude::*;
use std::collections::VecDeque;

verus! {

/// The scheduler that runs every task on the thread that blocks on a future.
pub struct SingleThreaded;

/// What the blocking loop does next.
#[derive(PartialEq, Eq, Structural, Clone, Copy, Debug)]
pub enum BlockOnAction {
    /// Poll the future being blocked on.
    PollMain,
    /// Take the woken tasks out of the task store, oldest first.
    PromoteWoken,
    /// Poll the task with this id.
    PollTask(u64),
    /// Sleep until something wakes the thread.
    Park,
    /// The future is done: return its output.
    Return,
}

/// What came of the action the loop asked for last.
#[derive(Debug)]
pub enum BlockOnEvent {
    /// The future being blocked on is ready.
    MainReady,
    /// The future being blocked on is pending.
    MainPending,
    /// These tasks, oldest first, were taken out of the task store.
    Promoted(Vec<u64>),
    /// The task asked for was polled.
    TaskPolled,
    /// The thread woke up.
    Unparked,
}

/// Where the blocking loop stands: each phase waits for the outcome of one action.
#[derive(PartialEq, Eq, Structural, Clone, Copy, Debug)]
pub enum BlockOnPhase {
    /// The future is polled once before the loop starts.
    FirstPoll,
    Promoting,
    /// The tasks of the round are polled one by one.
    Running,
    /// The future is polled again once every task of the round was polled.
    LoopPoll,
    Parked,
    Done,
}

/// The state of a blocking run: its phase, and the tasks of the current
/// round that are still to be polled, oldest first.
pub struct BlockOnState {
    pub phase: BlockOnPhase,
    pub round: Seq<u64>,
}

impl BlockOnState {
    /// The round holds tasks exactly while the loop is running them.
    pub open spec fn wf(self) -> bool {
        self.phase == BlockOnPhase::Running <==> self.round.len() > 0
    }
}

/// The state of a run that has just started.
pub open spec fn start_state() -> BlockOnState {
    BlockOnState { phase: BlockOnPhase::FirstPoll, round: Seq::empty() }
}

/// The state after taking the tasks `round` out of the store: it runs them,
/// or, when the store had none, polls the future again.
pub open spec fn round_state(round: Seq<u64>) -> BlockOnState {
    if round.len() == 0 {
        BlockOnState { phase: BlockOnPhase::LoopPoll, round: Seq::empty() }
    } else {
        BlockOnState { phase: BlockOnPhase::Running, round }
    }
}

/// The state with the tasks `rest` of a round still to poll: it runs them,
/// or, once the round is through, takes the tasks woken meanwhile out of
/// the store.
pub open spec fn rest_state(rest: Seq<u64>) -> BlockOnState {
    if rest.len() == 0 {
        BlockOnState { phase: BlockOnPhase::Promoting, round: Seq::empty() }
    } else {
        BlockOnState { phase: BlockOnPhase::Running, round: rest }
    }
}

/// The action that a state waits on.
pub open spec fn action_of(s: BlockOnState) -> BlockOnAction {
    match s.phase {
        BlockOnPhase::FirstPoll => BlockOnAction::PollMain,
        BlockOnPhase::Promoting => BlockOnAction::PromoteWoken,
        BlockOnPhase::Running => BlockOnAction::PollTask(s.round[0]),
        BlockOnPhase::LoopPoll => BlockOnAction::PollMain,
        BlockOnPhase::Parked => BlockOnAction::Park,
        BlockOnPhase::Done => BlockOnAction::Return,
    }
}

/// The state after event `e` in state `s`. An event that is not an outcome
/// of the action the state waits on changes nothing.
pub open spec fn next_state(s: BlockOnState, e: BlockOnEvent) -> BlockOnState {
    match (s.phase, e) {
        (BlockOnPhase::FirstPoll, BlockOnEvent::MainReady) => BlockOnState {
            phase: BlockOnPhase::Done,
            round: s.round,
        },
        (BlockOnPhase::FirstPoll, BlockOnEvent::MainPending) => BlockOnState {
            phase: BlockOnPhase::Promoting,
            round: s.round,
        },
        (BlockOnPhase::Promoting, BlockOnEvent::Promoted(ids)) => round_state(ids@),
        (BlockOnPhase::Running, BlockOnEvent::TaskPolled) => rest_state(s.round.drop_first()),
        (BlockOnPhase::LoopPoll, BlockOnEvent::MainReady) => BlockOnState {
            phase: BlockOnPhase::Done,
            round: s.round,
        },
        (BlockOnPhase::LoopPoll, BlockOnEvent::MainPending) => BlockOnState {
            phase: BlockOnPhase::Parked,
            round: s.round,
        },
        (BlockOnPhase::Parked, BlockOnEvent::Unparked) => BlockOnState {
            phase: BlockOnPhase::Promoting,
            round: s.round,
        },
        _ => s,
    }
}

/// The decisions of a blocking run: poll the future once; while it is
/// pending, take the woken tasks out of the store and poll each of them
/// once, oldest first, until the store has none left, then poll the future
/// again, and sleep.
pub struct BlockOn {
    phase: BlockOnPhase,
    round: VecDeque<u64>,
}

impl SingleThreaded {
    /// Starts blocking on a future.
    pub fn start_block_on(&self) -> (r: BlockOn)
        ensures
            r@ == start_state(),
    {
        BlockOn { phase: BlockOnPhase::FirstPoll, round: VecDeque::new() }
    }
}

impl BlockOn {
    /// The phase and the tasks of the round still to be polled.
    pub closed spec fn view(&self) -> BlockOnState {
        BlockOnState { phase: self.phase, round: self.round@ }
    }

    #[verifier::type_invariant]
    spec fn inv(self) -> bool {
        self@.wf()
    }

    /// What to do now.
    pub fn action(&self) -> (r: BlockOnAction)
        ensures
            r == action_of(self@),
            self@.wf(),
    {
        proof {
            use_type_invariant(self);
        }
        match self.phase {
            BlockOnPhase::FirstPoll => BlockOnAction::PollMain,
            BlockOnPhase::Promoting => BlockOnAction::PromoteWoken,
            BlockOnPhase::Running => BlockOnAction::PollTask(self.round[0]),
            BlockOnPhase::LoopPoll => BlockOnAction::PollMain,
            BlockOnPhase::Parked => BlockOnAction::Park,
            BlockOnPhase::Done => BlockOnAction::Return,
        }
    }

    /// Takes in what came of the last action and says what to do next.
    pub fn step(&mut self, event: BlockOnEvent) -> (r: BlockOnAction)
        ensures
            final(self)@ == next_state(old(self)@, event),
            final(self)@.wf(),
            r == action_of(final(self)@),
    {
        proof {
            use_type_invariant(&*self);
        }
        let ghost e = event;
        let mut current = BlockOn { phase: BlockOnPhase::Done, round: VecDeque::new() };
        std::mem::swap(self, &mut current);
        let phase = current.phase;
        let mut round = current.round;
        let next = match event {
            BlockOnEvent::MainReady => {
                if phase == BlockOnPhase::FirstPoll || phase == BlockOnPhase::LoopPoll {
                    BlockOn { phase: BlockOnPhase::Done, round }
                } else {
                    BlockOn { phase, round }
                }
            },
            BlockOnEvent::MainPending => {
                if phase == BlockOnPhase::FirstPoll {
                    BlockOn { phase: BlockOnPhase::Promoting, round }
                } else if phase == BlockOnPhase::LoopPoll {
                    BlockOn { phase: BlockOnPhase::Parked, round }
                } else {
                    BlockOn { phase, round }
                }
            },
            BlockOnEvent::Promoted(ids) => {
                if phase == BlockOnPhase::Promoting {
                    let mut taken: VecDeque<u64> = VecDeque::new();
                    let mut i: usize = 0;
                    while i < ids.len()
                        invariant
                            i <= ids.len(),
                            taken@ == ids@.subrange(0, i as int),
                        decreases ids.len() - i,
                    {
                        taken.push_back(ids[i]);
                        proof {
                            assert(taken@ =~= ids@.subrange(0, i + 1));
                        }
                        i = i + 1;
                    }
                    proof {
                        assert(taken@ =~= ids@);
                    }
                    if taken.len() == 0 {
                        BlockOn { phase: BlockOnPhase::LoopPoll, round: taken }
                    } else {
                        BlockOn { phase: BlockOnPhase::Running, round: taken }
                    }
                } else {
                    BlockOn { phase, round }
                }
            },
            BlockOnEvent::TaskPolled => {
                if phase == BlockOnPhase::Running {
                    let _polled = round.pop_front();
                    proof {
                        assert(round@ =~= old(self)@.round.drop_first());
                    }
                    if round.len() == 0 {
                        BlockOn { phase: BlockOnPhase::Promoting, round }
                    } else {
                        BlockOn { phase: BlockOnPhase::Running, round }
                    }
                } else {
                    BlockOn { phase, round }
                }
            },
            BlockOnEvent::Unparked => {
                if phase == BlockOnPhase::Parked {
                    BlockOn { phase: BlockOnPhase::Promoting, round }
                } else {
                    BlockOn { phase, round }
                }
            },
        };
        assert(next@.phase == next_state(old(self)@, e).phase);
        assert(next@.round == next_state(old(self)@, e).round);
        *self = next;
        assert(self@ == next_state(old(self)@, e));
        self.action()
    }
}

/// The state after `k` polled tasks, one after another.
pub open spec fn after_polls(s: BlockOnState, k: nat) -> BlockOnState
    decreases k,
{
    if k == 0 {
        s
    } else {
        next_state(after_polls(s, (k - 1) as nat), BlockOnEvent::TaskPolled)
    }
}

/// The loop returns exactly when a poll of the future finds it ready, and
/// once it has returned it stays done.
pub proof fn lemma_returns_exactly_when_ready(s: BlockOnState, e: BlockOnEvent)
    requires
        s.wf(),
    ensures
        next_state(s, e).wf(),
        (next_state(s, e).phase == BlockOnPhase::Done) <==> (s.phase == BlockOnPhase::Done || (
        action_of(s) == BlockOnAction::PollMain && e is MainReady)),
        s.phase == BlockOnPhase::Done ==> next_state(s, e) == s,
{
}

/// Every task taken out of the store in a round is polled exactly once,
/// oldest first, and only then does the loop go on: after `k` polls of a
/// round `r` it asks for `r[k]`, and after all of them it takes the tasks
/// woken meanwhile out of the store, before it polls the future.
pub proof fn lemma_round_polls_each_task_once_in_order(r: Seq<u64>, k: nat)
    requires
        0 < r.len(),
        k <= r.len(),
    ensures
        after_polls(round_state(r), k) == rest_state(r.subrange(k as int, r.len() as int)),
        k < r.len() ==> action_of(after_polls(round_state(r), k)) == BlockOnAction::PollTask(r[k as int]),
        k == r.len() ==> action_of(after_polls(round_state(r), k)) == BlockOnAction::PromoteWoken,
    decreases k,
{
    if k > 0 {
        lemma_round_polls_each_task_once_in_order(r, (k - 1) as nat);
        let rest = r.subrange(k - 1, r.len() as int);
        assert(rest.drop_first() =~= r.subrange(k as int, r.len() as int));
    } else {
        assert(r.subrange(0, r.len() as int) =~= r);
    }
}

/// While tasks of the round remain, nothing but polling them moves the
/// loop on: it neither polls the future nor sleeps.
pub proof fn lemma_round_is_not_interrupted(s: BlockOnState, e: BlockOnEvent)
    requires
        s.wf(),
        s.phase == BlockOnPhase::Running,
        !(e is TaskPolled),
    ensures
        next_state(s, e) == s,
{
}

/// The loop polls the future again only once taking the woken tasks out of
/// the store found none, and sleeps only after that poll found the future
/// pending: the thread never sleeps while a task it knows of waits to run.
pub proof fn lemma_parks_only_after_draining(s: BlockOnState, e: BlockOnEvent)
    requires
        s.wf(),
    ensures
        next_state(s, e).phase == BlockOnPhase::Parked ==> (s.phase == BlockOnPhase::Parked || (
        s.phase == BlockOnPhase::LoopPoll && e is MainPending)),
        next_state(s, e).phase == BlockOnPhase::LoopPoll ==> (s.phase == BlockOnPhase::LoopPoll
            || (s.phase == BlockOnPhase::Promoting && (e matches BlockOnEvent::Promoted(ids)
            && ids@.len() == 0))),
        s.phase == BlockOnPhase::Parked && e is Unparked ==> next_state(s, e).phase
            == BlockOnPhase::Promoting,
{
}

} // verus!
