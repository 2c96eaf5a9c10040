use qrt_rust_utils::store::{
    bulk_failure_ignorable, clean_after_pop, clean_local_should_start, clean_start,
    drain_after_save, first_non_duplicate_error, insert_failure_ignorable, set_if_absent_applied,
    CleanStep, DrainAction,
};

#[test]
fn insert_failures() {
    assert!(insert_failure_ignorable(Some(11000)));
    assert!(!insert_failure_ignorable(Some(121)));
    assert!(!insert_failure_ignorable(None));
}

#[test]
fn bulk_failures() {
    assert_eq!(first_non_duplicate_error(&vec![11000, 11000, 2, 3]), Some(2));
    assert_eq!(first_non_duplicate_error(&vec![11000]), None);
    assert_eq!(first_non_duplicate_error(&vec![]), None);
    assert!(bulk_failure_ignorable(Some(&vec![11000, 11000])));
    assert!(bulk_failure_ignorable(Some(&vec![])));
    assert!(!bulk_failure_ignorable(Some(&vec![11000, 1])));
    assert!(!bulk_failure_ignorable(None));
}

#[test]
fn clean_up_decisions() {
    assert!(clean_local_should_start(true, false));
    assert!(!clean_local_should_start(false, false));
    assert!(!clean_local_should_start(true, true));
    assert_eq!(clean_start(None), CleanStep::Abandon);
    assert_eq!(clean_start(Some(0)), CleanStep::Abandon);
    assert_eq!(clean_start(Some(99)), CleanStep::PopBatch { rounds_left: 1 });
    assert_eq!(clean_start(Some(250)), CleanStep::PopBatch { rounds_left: 3 });
    assert_eq!(clean_after_pop(3, Some(0)), CleanStep::Done { emptied: true });
    assert_eq!(clean_after_pop(3, Some(150)), CleanStep::PopBatch { rounds_left: 2 });
    assert_eq!(clean_after_pop(3, None), CleanStep::PopBatch { rounds_left: 2 });
    assert_eq!(clean_after_pop(1, Some(7)), CleanStep::Done { emptied: false });
}

#[test]
fn clean_up_of_a_buffer_that_never_empties_ends() {
    let mut step = clean_start(Some(250));
    let mut batches = 0;
    while let CleanStep::PopBatch { rounds_left } = step {
        batches += 1;
        step = clean_after_pop(rounds_left, Some(250));
    }
    assert_eq!(batches, 3);
    assert_eq!(step, CleanStep::Done { emptied: false });
}

#[test]
fn drain_and_set_replies() {
    assert_eq!(drain_after_save(true), DrainAction::DeleteRowAndContinue);
    assert_eq!(drain_after_save(false), DrainAction::Stop);
    assert!(set_if_absent_applied(Some("OK")));
    assert!(!set_if_absent_applied(Some("ok")));
    assert!(!set_if_absent_applied(None));
}
