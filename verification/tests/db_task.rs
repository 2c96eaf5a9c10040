use qrt_rust_utils::db_task::{
    cancel_outcome, complete_outcome, next_pending_task, occupy_outcome, send_task_failure,
    ConsumerConfig, TaskSchedulerError, DUPLICATE_KEY_CODE,
};

fn store_error() -> mongodb::error::Error {
    mongodb::error::Error::custom("store unavailable")
}

#[test]
fn duplicate_key_means_task_exists() {
    assert!(matches!(send_task_failure(Some(DUPLICATE_KEY_CODE), store_error()), TaskSchedulerError::TaskExists));
    assert!(matches!(send_task_failure(Some(11001), store_error()), TaskSchedulerError::MongoDbError(_)));
    assert!(matches!(send_task_failure(None, store_error()), TaskSchedulerError::MongoDbError(_)));
}

#[test]
fn next_pending_task_outcomes() {
    assert!(matches!(next_pending_task(Some(5u32)), Ok(5)));
    assert!(matches!(next_pending_task::<u32>(None), Err(TaskSchedulerError::NoPendingTask)));
}

#[test]
fn update_outcomes() {
    assert!(matches!(occupy_outcome(0, 0), Err(TaskSchedulerError::NoMatchedTask)));
    assert!(matches!(occupy_outcome(1, 0), Err(TaskSchedulerError::OccupyTaskFailed)));
    assert!(matches!(occupy_outcome(1, 1), Ok(())));
    assert!(matches!(complete_outcome(0, 3), Err(TaskSchedulerError::NoMatchedTask)));
    assert!(matches!(complete_outcome(2, 0), Err(TaskSchedulerError::CompleteTaskFailed)));
    assert!(matches!(complete_outcome(1, 1), Ok(())));
    assert!(matches!(cancel_outcome(0, 0, true), Err(TaskSchedulerError::NoMatchedTask)));
    assert!(matches!(cancel_outcome(1, 0, false), Err(TaskSchedulerError::CancelTaskFailed)));
    assert!(matches!(cancel_outcome(1, 0, true), Ok(())));
    assert!(matches!(cancel_outcome(1, 1, false), Ok(())));
}

#[test]
fn consumer_config_default_and_clone() {
    let config = ConsumerConfig::default();
    assert_eq!(config.max_concurrency, u32::MAX);
    assert_eq!(config.task_delay, std::time::Duration::ZERO);
    let copy = config.clone();
    assert_eq!(copy.max_concurrency, config.max_concurrency);
    assert_eq!(copy.task_delay, config.task_delay);
}
