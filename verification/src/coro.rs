use vstd::prelude::*;

verus! {

/// What the runtime's main thread does next.
#[derive(PartialEq, Eq, Structural, Clone, Copy, Debug)]
pub enum MainAction {
    /// Read the shutdown signal.
    CheckShutdown,
    /// Hand every ready task to the scheduler.
    RunTasks,
    /// Let the I/O driver make progress.
    TickIo,
    /// Sleep until the thread is woken.
    Park,
    /// Leave the loop and end the thread.
    Exit,
}

/// What came of the action the main thread carried out last.
#[derive(PartialEq, Eq, Structural, Clone, Copy, Debug)]
pub enum MainEvent {
    /// The shutdown signal was read, with this value.
    Shutdown(bool),
    /// The ready tasks were handed to the scheduler.
    TasksRun,
    /// The I/O driver made progress.
    IoTicked,
    /// The thread woke up.
    Unparked,
}

/// The action to wait on after event `e` while waiting on action `a`; an
/// event that is not an outcome of `a` changes nothing.
pub open spec fn main_next(a: MainAction, e: MainEvent) -> MainAction {
    match (a, e) {
        (MainAction::CheckShutdown, MainEvent::Shutdown(true)) => MainAction::Exit,
        (MainAction::CheckShutdown, MainEvent::Shutdown(false)) => MainAction::RunTasks,
        (MainAction::RunTasks, MainEvent::TasksRun) => MainAction::TickIo,
        (MainAction::TickIo, MainEvent::IoTicked) => MainAction::Park,
        (MainAction::Park, MainEvent::Unparked) => MainAction::CheckShutdown,
        _ => a,
    }
}

/// The decisions of the runtime's main thread: until the shutdown signal is
/// set, run the ready tasks, tick the I/O driver and sleep.
pub struct MainLoop {
    awaiting: MainAction,
}

impl MainLoop {
    /// The action whose outcome the loop waits for.
    pub closed spec fn view(&self) -> MainAction {
        self.awaiting
    }

    /// A main thread that has just started: it first reads the signal.
    pub fn new() -> (r: MainLoop)
        ensures
            r@ == MainAction::CheckShutdown,
    {
        MainLoop { awaiting: MainAction::CheckShutdown }
    }

    /// What to do now.
    pub fn action(&self) -> (r: MainAction)
        ensures
            r == self@,
    {
        self.awaiting
    }

    /// Takes in what came of the last action and says what to do next. An
    /// event that is not an outcome of that action changes nothing.
    pub fn step(&mut self, event: MainEvent) -> (r: MainAction)
        ensures
            final(self)@ == main_next(old(self)@, event),
            r == final(self)@,
    {
        let next = match (self.awaiting, event) {
            (MainAction::CheckShutdown, MainEvent::Shutdown(true)) => MainAction::Exit,
            (MainAction::CheckShutdown, MainEvent::Shutdown(false)) => MainAction::RunTasks,
            (MainAction::RunTasks, MainEvent::TasksRun) => MainAction::TickIo,
            (MainAction::TickIo, MainEvent::IoTicked) => MainAction::Park,
            (MainAction::Park, MainEvent::Unparked) => MainAction::CheckShutdown,
            (a, _) => a,
        };
        self.awaiting = next;
        next
    }
}

/// The main thread ends exactly when it reads a set shutdown signal, and
/// then stays ended.
pub proof fn lemma_exits_exactly_on_shutdown(a: MainAction, e: MainEvent)
    ensures
        main_next(a, e) == MainAction::Exit <==> (a == MainAction::Exit || (a
            == MainAction::CheckShutdown && e == MainEvent::Shutdown(true))),
        main_next(MainAction::Exit, e) == MainAction::Exit,
{
}

/// Each round hands the ready tasks over and ticks I/O before sleeping, and
/// reads the signal again right after waking.
pub proof fn lemma_round_order(a: MainAction, e: MainEvent)
    ensures
        main_next(a, e) == MainAction::Park ==> (a == MainAction::Park || (a == MainAction::TickIo
            && e == MainEvent::IoTicked)),
        main_next(a, e) == MainAction::TickIo ==> (a == MainAction::TickIo || (a
            == MainAction::RunTasks && e == MainEvent::TasksRun)),
        main_next(a, e) == MainAction::RunTasks ==> (a == MainAction::RunTasks || (a
            == MainAction::CheckShutdown && e == MainEvent::Shutdown(false))),
        main_next(MainAction::Park, MainEvent::Unparked) == MainAction::CheckShutdown,
{
}

} // verus!
