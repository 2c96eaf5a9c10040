//! How the saver and the key-value client judge the replies of their stores.
use vstd::prelude::*;
use crate::db_task::{DUPLICATE_KEY_CODE, is_duplicate_key};
use crate::text::text_equals;

verus! {

/// A single insert that failed with a duplicate key is not an error: the
/// document is there already. Any other failure is.
pub fn insert_failure_ignorable(write_error_code: Option<i32>) -> (r: bool)
    ensures
        r == (write_error_code matches Some(code) && is_duplicate_key(code)),
{
    match write_error_code {
        Some(code) => code == DUPLICATE_KEY_CODE,
        None => false,
    }
}

/// The position of the first write error that is not a duplicate key.
pub open spec fn first_non_duplicate(codes: Seq<i32>) -> Option<int> {
    if exists|i: int| 0 <= i < codes.len() && !is_duplicate_key(codes[i]) {
        Some(
            choose|i: int|
                0 <= i < codes.len() && !is_duplicate_key(codes[i]) && forall|j: int|
                    0 <= j < i ==> is_duplicate_key(codes[j]),
        )
    } else {
        None
    }
}

/// Finds the first write error of a bulk insert that is not a duplicate key.
pub fn first_non_duplicate_error(codes: &Vec<i32>) -> (r: Option<usize>)
    ensures
        match first_non_duplicate(codes@) {
            Some(i) => r == Some(i as usize),
            None => r is None,
        },
{
    let mut i: usize = 0;
    while i < codes.len()
        invariant
            i <= codes.len(),
            forall|j: int| 0 <= j < i ==> is_duplicate_key(codes@[j]),
        decreases codes.len() - i,
    {
        if codes[i] != DUPLICATE_KEY_CODE {
            proof {
                let k = choose|k: int|
                    0 <= k < codes@.len() && !is_duplicate_key(codes@[k]) && forall|j: int|
                        0 <= j < k ==> is_duplicate_key(codes@[j]);
                assert(0 <= i < codes@.len() && !is_duplicate_key(codes@[i as int]));
                if k < i {
                    assert(is_duplicate_key(codes@[k]));
                } else if k > i {
                    assert(!is_duplicate_key(codes@[i as int]));
                }
            }
            return Some(i);
        }
        i = i + 1;
    }
    None
}

/// A bulk insert that failed only with duplicate keys (its write errors are
/// all duplicate keys, or there are none) is not an error. A failure with no
/// write-error list, or with another write error, is.
pub fn bulk_failure_ignorable(write_error_codes: Option<&Vec<i32>>) -> (r: bool)
    ensures
        r == (write_error_codes matches Some(codes) && first_non_duplicate(codes@) is None),
{
    match write_error_codes {
        Some(codes) => first_non_duplicate_error(codes).is_none(),
        None => false,
    }
}

/// Whether a clean-up of the local buffer starts: only when something was
/// buffered and no clean-up is already running.
pub fn clean_local_should_start(dirty: bool, cleaning: bool) -> (r: bool)
    ensures
        r == (dirty && !cleaning),
{
    dirty && !cleaning
}

/// Where a clean-up of the local buffer stands.
#[derive(Debug, PartialEq, Eq, Structural)]
pub enum CleanStep {
    /// The first count found nothing (or could not be read): the clean-up
    /// ends at once, and its running flag is left set.
    Abandon,
    /// Move one batch of up to a hundred rows to the store, then count again;
    /// at most `rounds_left` batches remain, this one included.
    PopBatch { rounds_left: u64 },
    /// The clean-up ends and clears its running flag; `emptied` says whether
    /// the buffer was found empty, which clears the dirty flag.
    Done { emptied: bool },
}

/// The first step of a clean-up, after the first count of buffered rows:
/// nothing to do when the count is zero or unreadable, otherwise one batch
/// more than the number of full hundreds.
pub open spec fn clean_start_step(first_count: Option<u64>) -> CleanStep {
    match first_count {
        Some(n) if n > 0 => CleanStep::PopBatch { rounds_left: (n / 100 + 1) as u64 },
        _ => CleanStep::Abandon,
    }
}

/// The step after a batch was moved and the rows were counted again.
pub open spec fn clean_after_pop_step(rounds_left: u64, count: Option<u64>) -> CleanStep {
    if count == Some(0u64) {
        CleanStep::Done { emptied: true }
    } else if rounds_left <= 1 {
        CleanStep::Done { emptied: false }
    } else {
        CleanStep::PopBatch { rounds_left: (rounds_left - 1) as u64 }
    }
}

/// The first step of a clean-up.
pub fn clean_start(first_count: Option<u64>) -> (r: CleanStep)
    ensures
        r == clean_start_step(first_count),
{
    match first_count {
        Some(n) => if n > 0 {
            CleanStep::PopBatch { rounds_left: n / 100 + 1 }
        } else {
            CleanStep::Abandon
        },
        None => CleanStep::Abandon,
    }
}

/// The step after a batch: done when the buffer is empty or no round is
/// left, otherwise another batch.
pub fn clean_after_pop(rounds_left: u64, count: Option<u64>) -> (r: CleanStep)
    ensures
        r == clean_after_pop_step(rounds_left, count),
{
    match count {
        Some(0) => CleanStep::Done { emptied: true },
        _ => if rounds_left <= 1 {
            CleanStep::Done { emptied: false }
        } else {
            CleanStep::PopBatch { rounds_left: rounds_left - 1 }
        },
    }
}

/// A clean-up makes progress: each batch leaves fewer rounds, so it moves at
/// most one batch more than the number of full hundreds it first counted.
pub proof fn lemma_clean_up_ends(first_count: Option<u64>, rounds_left: u64, count: Option<u64>)
    ensures
        clean_start_step(first_count) matches CleanStep::PopBatch { rounds_left: n } ==> (
        first_count matches Some(c) && n == c / 100 + 1),
        clean_after_pop_step(rounds_left, count) matches CleanStep::PopBatch { rounds_left: n }
            ==> n < rounds_left,
{
}

/// The dirty flag is cleared only when a count found the buffer empty.
pub proof fn lemma_cleared_only_when_empty(rounds_left: u64, count: Option<u64>)
    ensures
        clean_after_pop_step(rounds_left, count) == (CleanStep::Done { emptied: true }) <==> count
            == Some(0u64),
{
}

/// What moving one buffered row to the store does next.
#[derive(Debug, PartialEq, Eq, Structural)]
pub enum DrainAction {
    /// The row was saved: delete it from the buffer and go on with the next.
    DeleteRowAndContinue,
    /// Saving failed: keep the row and stop this batch.
    Stop,
}

/// A buffered row is deleted only once it has been saved; the first failure
/// ends the batch.
pub fn drain_after_save(saved: bool) -> (r: DrainAction)
    ensures
        saved <==> r == DrainAction::DeleteRowAndContinue,
        !saved <==> r == DrainAction::Stop,
{
    if saved {
        DrainAction::DeleteRowAndContinue
    } else {
        DrainAction::Stop
    }
}

/// Whether a conditional `SET` was applied: the store answers `OK` then, and
/// no value when the key was already present.
pub fn set_if_absent_applied(reply: Option<&str>) -> (r: bool)
    ensures
        r == (reply matches Some(v) && v@ == "OK"@),
{
    match reply {
        Some(v) => text_equals(v, "OK"),
        None => false,
    }
}

} // verus!
