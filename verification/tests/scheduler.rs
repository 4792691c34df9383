use liten::coro::{MainAction, MainEvent, MainLoop};
use liten::scheduler::{BlockOnAction, BlockOnEvent, SingleThreaded};

#[test]
fn block_on_returns_when_first_poll_is_ready() {
    let mut m = SingleThreaded.start_block_on();
    assert_eq!(m.action(), BlockOnAction::PollMain);
    assert_eq!(m.step(BlockOnEvent::MainReady), BlockOnAction::Return);
    assert_eq!(m.step(BlockOnEvent::Unparked), BlockOnAction::Return);
}

#[test]
fn block_on_polls_each_promoted_task_once_oldest_first() {
    let mut m = SingleThreaded.start_block_on();
    assert_eq!(m.step(BlockOnEvent::MainPending), BlockOnAction::PromoteWoken);
    assert_eq!(m.step(BlockOnEvent::Promoted(vec![7, 3, 9])), BlockOnAction::PollTask(7));
    assert_eq!(m.step(BlockOnEvent::TaskPolled), BlockOnAction::PollTask(3));
    assert_eq!(m.step(BlockOnEvent::TaskPolled), BlockOnAction::PollTask(9));
    // after the round, tasks woken meanwhile are taken and run first
    assert_eq!(m.step(BlockOnEvent::TaskPolled), BlockOnAction::PromoteWoken);
    assert_eq!(m.step(BlockOnEvent::Promoted(vec![4])), BlockOnAction::PollTask(4));
    assert_eq!(m.step(BlockOnEvent::TaskPolled), BlockOnAction::PromoteWoken);
    assert_eq!(m.step(BlockOnEvent::Promoted(vec![])), BlockOnAction::PollMain);
    assert_eq!(m.step(BlockOnEvent::MainPending), BlockOnAction::Park);
    assert_eq!(m.step(BlockOnEvent::Unparked), BlockOnAction::PromoteWoken);
    assert_eq!(m.step(BlockOnEvent::Promoted(vec![])), BlockOnAction::PollMain);
    assert_eq!(m.step(BlockOnEvent::MainReady), BlockOnAction::Return);
}

#[test]
fn block_on_ignores_events_that_do_not_fit() {
    let mut m = SingleThreaded.start_block_on();
    assert_eq!(m.step(BlockOnEvent::TaskPolled), BlockOnAction::PollMain);
    assert_eq!(m.step(BlockOnEvent::MainPending), BlockOnAction::PromoteWoken);
    assert_eq!(m.step(BlockOnEvent::MainReady), BlockOnAction::PromoteWoken);
    assert_eq!(m.step(BlockOnEvent::Promoted(vec![1, 2])), BlockOnAction::PollTask(1));
    // while the round runs, neither the future nor a wake-up moves the loop on
    assert_eq!(m.step(BlockOnEvent::MainReady), BlockOnAction::PollTask(1));
    assert_eq!(m.step(BlockOnEvent::Unparked), BlockOnAction::PollTask(1));
    assert_eq!(m.step(BlockOnEvent::Promoted(vec![5])), BlockOnAction::PollTask(1));
    assert_eq!(m.step(BlockOnEvent::TaskPolled), BlockOnAction::PollTask(2));
}

#[test]
fn main_loop_rounds_until_shutdown() {
    let mut m = MainLoop::new();
    assert_eq!(m.action(), MainAction::CheckShutdown);
    assert_eq!(m.step(MainEvent::Shutdown(false)), MainAction::RunTasks);
    assert_eq!(m.step(MainEvent::TasksRun), MainAction::TickIo);
    assert_eq!(m.step(MainEvent::IoTicked), MainAction::Park);
    assert_eq!(m.step(MainEvent::Unparked), MainAction::CheckShutdown);
    assert_eq!(m.step(MainEvent::Shutdown(true)), MainAction::Exit);
    assert_eq!(m.step(MainEvent::Unparked), MainAction::Exit);
}
