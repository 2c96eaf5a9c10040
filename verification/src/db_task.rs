//! Task consumption against a shared task store: the outcomes of store
//! updates and the decisions of the consumer.
use vstd::prelude::*;
use core::time::Duration;

verus! {

#[verifier::external_type_specification]
#[verifier::external_body]
pub struct ExMongoError(mongodb::error::Error);

#[verifier::external_type_specification]
#[verifier::external_body]
pub struct ExAnyhowError(anyhow::Error);

/// Why a task operation failed.
#[derive(Debug)]
pub enum TaskSchedulerError {
    TaskExists,
    NoPendingTask,
    NoMatchedTask,
    OccupyTaskFailed,
    CompleteTaskFailed,
    CancelTaskFailed,
    MaintainerError,
    TaskFailedError,
    MongoDbError(mongodb::error::Error),
    UnexpectedError(anyhow::Error),
}

/// How a consumer finished a task.
#[derive(Debug, PartialEq, Eq, Structural)]
pub enum TaskConsumerResult {
    Completed,
    Cancelled,
    Failed,
}

/// How many tasks a consumer runs at once, and the pause between tasks.
#[derive(Debug)]
pub struct ConsumerConfig {
    pub max_concurrency: u32,
    pub task_delay: Duration,
}

impl Clone for ConsumerConfig {
    fn clone(&self) -> (r: Self)
        ensures
            r == *self,
    {
        ConsumerConfig { max_concurrency: self.max_concurrency, task_delay: self.task_delay }
    }
}

/// The length of a `Duration` in nanoseconds, as `Duration::as_nanos` gives it.
pub uninterp spec fn duration_total_nanos(span: Duration) -> int;

/// `Duration::ZERO`, documented as a duration of zero time.
#[verifier::external_body]
fn zero_duration() -> (r: Duration)
    ensures
        duration_total_nanos(r) == 0,
{
    Duration::ZERO
}

impl Default for ConsumerConfig {
    /// No concurrency limit (`u32::MAX`) and no delay.
    fn default() -> (r: Self)
        ensures
            r.max_concurrency == u32::MAX,
            duration_total_nanos(r.task_delay) == 0,
    {
        ConsumerConfig { max_concurrency: u32::MAX, task_delay: zero_duration() }
    }
}

/// The error code the store reports for a duplicate key.
pub const DUPLICATE_KEY_CODE: i32 = 11000;

/// Whether a write error code means "duplicate key".
pub open spec fn is_duplicate_key(code: i32) -> bool {
    code == DUPLICATE_KEY_CODE
}

/// What a failed insert of a new task means: a duplicate key means the task
/// exists already; any other failure is passed on.
pub fn send_task_failure(write_error_code: Option<i32>, error: mongodb::error::Error) -> (r:
    TaskSchedulerError)
    ensures
        match write_error_code {
            Some(code) if is_duplicate_key(code) => r is TaskExists,
            _ => r matches TaskSchedulerError::MongoDbError(e) && e == error,
        },
{
    match write_error_code {
        Some(code) => if code == DUPLICATE_KEY_CODE {
            TaskSchedulerError::TaskExists
        } else {
            TaskSchedulerError::MongoDbError(error)
        },
        None => TaskSchedulerError::MongoDbError(error),
    }
}

/// The first pending task, or `NoPendingTask` when the search found none.
pub fn next_pending_task<T>(found: Option<T>) -> (r: Result<T, TaskSchedulerError>)
    ensures
        match found {
            Some(t) => r == Ok::<T, TaskSchedulerError>(t),
            None => r matches Err(TaskSchedulerError::NoPendingTask),
        },
{
    match found {
        Some(t) => Ok(t),
        None => Err(TaskSchedulerError::NoPendingTask),
    }
}

/// The outcome of marking a pending task as taken: no matching task, a
/// match that was not modified (another worker took it), or success.
pub fn occupy_outcome(matched_count: u64, modified_count: u64) -> (r: Result<(), TaskSchedulerError>)
    ensures
        matched_count == 0 ==> r matches Err(TaskSchedulerError::NoMatchedTask),
        matched_count != 0 && modified_count == 0 ==> r matches Err(
            TaskSchedulerError::OccupyTaskFailed,
        ),
        matched_count != 0 && modified_count != 0 ==> r is Ok,
{
    if matched_count == 0 {
        Err(TaskSchedulerError::NoMatchedTask)
    } else if modified_count == 0 {
        Err(TaskSchedulerError::OccupyTaskFailed)
    } else {
        Ok(())
    }
}

/// The outcome of marking a task completed.
pub fn complete_outcome(matched_count: u64, modified_count: u64) -> (r: Result<(), TaskSchedulerError>)
    ensures
        matched_count == 0 ==> r matches Err(TaskSchedulerError::NoMatchedTask),
        matched_count != 0 && modified_count == 0 ==> r matches Err(
            TaskSchedulerError::CompleteTaskFailed,
        ),
        matched_count != 0 && modified_count != 0 ==> r is Ok,
{
    if matched_count == 0 {
        Err(TaskSchedulerError::NoMatchedTask)
    } else if modified_count == 0 {
        Err(TaskSchedulerError::CompleteTaskFailed)
    } else {
        Ok(())
    }
}

/// The outcome of marking a task cancelled; an upsert counts as a change.
pub fn cancel_outcome(matched_count: u64, modified_count: u64, upserted: bool) -> (r: Result<
    (),
    TaskSchedulerError,
>)
    ensures
        matched_count == 0 ==> r matches Err(TaskSchedulerError::NoMatchedTask),
        matched_count != 0 && modified_count == 0 && !upserted ==> r matches Err(
            TaskSchedulerError::CancelTaskFailed,
        ),
        matched_count != 0 && (modified_count != 0 || upserted) ==> r is Ok,
{
    if matched_count == 0 {
        Err(TaskSchedulerError::NoMatchedTask)
    } else if modified_count == 0 && !upserted {
        Err(TaskSchedulerError::CancelTaskFailed)
    } else {
        Ok(())
    }
}

} // verus!
