use qrt_rust_utils::consumer::{
    find_event, main_loop_next, occupy_event, run_task_error, run_task_next, MainLoop,
    MainLoopEvent, MainLoopStep, RunTaskEvent, RunTaskStep, RunningTasks,
};
use qrt_rust_utils::db_task::{TaskConsumerResult, TaskSchedulerError};

#[test]
fn main_loop_round_with_a_task() {
    let mut step = MainLoopStep::Maintain;
    let events = [
        (MainLoopEvent::Maintained, MainLoopStep::AcquireToken),
        (MainLoopEvent::TokenAcquired, MainLoopStep::FindTask),
        (MainLoopEvent::TaskFound, MainLoopStep::OccupyTask),
        (MainLoopEvent::Occupied, MainLoopStep::RunTask),
        (MainLoopEvent::TaskSpawned, MainLoopStep::Sleep),
        (MainLoopEvent::Slept, MainLoopStep::Maintain),
    ];
    for (event, expected) in events {
        step = main_loop_next(step, event);
        assert_eq!(step, expected);
    }
}

#[test]
fn main_loop_waits_or_stops() {
    assert_eq!(main_loop_next(MainLoopStep::AcquireToken, MainLoopEvent::TokenUnavailable), MainLoopStep::Sleep);
    assert_eq!(main_loop_next(MainLoopStep::FindTask, MainLoopEvent::NoPendingTask), MainLoopStep::Sleep);
    assert_eq!(main_loop_next(MainLoopStep::FindTask, MainLoopEvent::FindFailed), MainLoopStep::Stop);
    assert_eq!(main_loop_next(MainLoopStep::OccupyTask, MainLoopEvent::OccupyRejected), MainLoopStep::Sleep);
    assert_eq!(main_loop_next(MainLoopStep::OccupyTask, MainLoopEvent::OccupyFailed), MainLoopStep::Sleep);
    assert_eq!(main_loop_next(MainLoopStep::Stop, MainLoopEvent::Slept), MainLoopStep::Stop);
    assert_eq!(main_loop_next(MainLoopStep::Maintain, MainLoopEvent::Slept), MainLoopStep::Maintain);
}

#[test]
fn events_of_store_results() {
    assert_eq!(find_event(&Ok::<u8, TaskSchedulerError>(1)), MainLoopEvent::TaskFound);
    assert_eq!(find_event::<u8>(&Err(TaskSchedulerError::NoPendingTask)), MainLoopEvent::NoPendingTask);
    assert_eq!(find_event::<u8>(&Err(TaskSchedulerError::TaskExists)), MainLoopEvent::FindFailed);
    assert_eq!(occupy_event(&Ok(())), MainLoopEvent::Occupied);
    assert_eq!(occupy_event(&Err(TaskSchedulerError::NoMatchedTask)), MainLoopEvent::OccupyRejected);
    assert_eq!(occupy_event(&Err(TaskSchedulerError::OccupyTaskFailed)), MainLoopEvent::OccupyRejected);
    assert_eq!(occupy_event(&Err(TaskSchedulerError::CompleteTaskFailed)), MainLoopEvent::OccupyFailed);
}

#[test]
fn run_task_stages() {
    let step = run_task_next(RunTaskStep::AddRunning, RunTaskEvent::Added(true));
    assert_eq!(step, RunTaskStep::RemoveRunning);
    let step = run_task_next(step, RunTaskEvent::Removed(true));
    assert_eq!(step, RunTaskStep::Consume);
    assert_eq!(
        run_task_next(RunTaskStep::Consume, RunTaskEvent::Consumed(TaskConsumerResult::Completed)),
        RunTaskStep::MarkCompleted
    );
    assert_eq!(
        run_task_next(RunTaskStep::Consume, RunTaskEvent::Consumed(TaskConsumerResult::Cancelled)),
        RunTaskStep::MarkCancelled
    );
    let failed = run_task_next(RunTaskStep::Consume, RunTaskEvent::Consumed(TaskConsumerResult::Failed));
    assert_eq!(failed, RunTaskStep::ConsumerFailed);
    assert!(matches!(run_task_error(&failed), Some(TaskSchedulerError::TaskFailedError)));
    let already = run_task_next(RunTaskStep::AddRunning, RunTaskEvent::Added(false));
    assert!(matches!(run_task_error(&already), Some(TaskSchedulerError::MaintainerError)));
    let missing = run_task_next(RunTaskStep::RemoveRunning, RunTaskEvent::Removed(false));
    assert!(matches!(run_task_error(&missing), Some(TaskSchedulerError::MaintainerError)));
    assert!(run_task_error(&RunTaskStep::MarkCompleted).is_none());
}

#[test]
fn running_tasks_add_then_remove() {
    let mut running = RunningTasks::new();
    assert!(running.add_running_task("a"));
    assert!(running.add_running_task("b"));
    assert!(running.add_running_task("c"));
    let flags: Vec<bool> = running.tasks.iter().map(|t| *t == "a").collect();
    assert!(running.remove_running_task(&flags));
    assert_eq!(running.tasks, vec!["c", "b"]);
    let flags: Vec<bool> = running.tasks.iter().map(|t| *t == "z").collect();
    assert!(!running.remove_running_task(&flags));
    assert_eq!(running.tasks, vec!["c", "b"]);
    assert!(running.add_running_task("d"));
    let flags: Vec<bool> = running.tasks.iter().map(|t| *t == "d").collect();
    assert!(running.remove_running_task(&flags));
    assert_eq!(running.tasks, vec!["c", "b"]);
}

#[test]
fn main_loop_carries_token_and_task() {
    let mut main_loop: MainLoop<&str> = MainLoop::new();
    assert_eq!(main_loop.step(), MainLoopStep::Maintain);
    assert!(!main_loop.holds_token());
    main_loop.advance(MainLoopEvent::Maintained, None);
    main_loop.advance(MainLoopEvent::TokenAcquired, None);
    assert!(main_loop.holds_token());
    assert_eq!(main_loop.step(), MainLoopStep::FindTask);
    main_loop.advance(MainLoopEvent::TaskFound, Some("job-1"));
    assert_eq!(main_loop.step(), MainLoopStep::OccupyTask);
    assert_eq!(*main_loop.current_task(), "job-1");
    main_loop.advance(MainLoopEvent::Occupied, None);
    assert_eq!(main_loop.step(), MainLoopStep::RunTask);
    assert_eq!(main_loop.spawn_task(), "job-1");
    assert!(!main_loop.holds_token());
    assert_eq!(main_loop.step(), MainLoopStep::Sleep);
    main_loop.advance(MainLoopEvent::Slept, None);
    assert_eq!(main_loop.step(), MainLoopStep::Maintain);
}

#[test]
fn main_loop_lets_go_after_rejected_take() {
    let mut main_loop: MainLoop<u32> = MainLoop::new();
    main_loop.advance(MainLoopEvent::Maintained, None);
    main_loop.advance(MainLoopEvent::TokenAcquired, None);
    main_loop.advance(MainLoopEvent::TaskFound, Some(7));
    main_loop.advance(MainLoopEvent::OccupyRejected, None);
    assert_eq!(main_loop.step(), MainLoopStep::Sleep);
    assert!(main_loop.holds_token());
    main_loop.advance(MainLoopEvent::Slept, None);
    assert!(!main_loop.holds_token());
    main_loop.advance(MainLoopEvent::Maintained, None);
    main_loop.advance(MainLoopEvent::TokenUnavailable, None);
    assert_eq!(main_loop.step(), MainLoopStep::Sleep);
    assert!(!main_loop.holds_token());
}
