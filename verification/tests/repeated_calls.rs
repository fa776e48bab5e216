use momolite::clock::{clock_instant, plan_date_prefix, utc_today};
use momolite::db::{count_import_actions, plan_vocabulary_items};
use momolite::llm::{needs_default_profile, scene_can_join_course};

fn is_date_shape(text: &str) -> bool {
    let bytes = text.as_bytes();
    bytes.len() == 10
        && bytes[4] == b'-'
        && bytes[7] == b'-'
        && bytes.iter().enumerate().all(|(i, b)| i == 4 || i == 7 || b.is_ascii_digit())
}

#[test]
fn reimporting_a_stored_book_creates_nothing() {
    let keys = vec!["abandon".to_string(), "".to_string(), "keep".to_string(), "abandon".to_string()];
    let first = plan_vocabulary_items(&keys, &vec![None, None, None, None]);
    assert_eq!(first.len(), 3);
    assert_eq!(count_import_actions(&first), (2, 1));
    let stored_abandon = first[0].vocabulary_item_id.clone();
    let stored_keep = first[1].vocabulary_item_id.clone();
    let existing = vec![Some(stored_abandon.clone()), None, Some(stored_keep.clone()), Some(stored_abandon.clone())];
    let again = plan_vocabulary_items(&keys, &existing);
    assert_eq!(again.len(), 3);
    assert!(again.iter().all(|a| a.reuses_existing));
    assert_eq!(again[0].vocabulary_item_id, stored_abandon);
    assert_eq!(again[1].vocabulary_item_id, stored_keep);
    assert_eq!(again[2].vocabulary_item_id, stored_abandon);
    assert_eq!(count_import_actions(&again), (0, 3));
}

#[test]
fn import_of_blank_words_plans_nothing() {
    let keys = vec!["".to_string(), "".to_string()];
    let actions = plan_vocabulary_items(&keys, &vec![None, None]);
    assert!(actions.is_empty());
    assert_eq!(count_import_actions(&actions), (0, 0));
}

#[test]
fn a_scene_that_joined_does_not_join_again() {
    let statuses = ["succeeded", "failed", "succeeded"];
    let mut added = [false, false, true];
    let mut joined = 0;
    for (i, status) in statuses.iter().enumerate() {
        if scene_can_join_course(status, added[i]) {
            added[i] = true;
            joined += 1;
        }
    }
    assert_eq!(joined, 1);
    let mut joined_again = 0;
    for (i, status) in statuses.iter().enumerate() {
        if scene_can_join_course(status, added[i]) {
            joined_again += 1;
        }
    }
    assert_eq!(joined_again, 0);
}

#[test]
fn saving_leaves_one_default_profile() {
    assert!(needs_default_profile(&vec![]));
    assert!(needs_default_profile(&vec![false]));
    assert!(!needs_default_profile(&vec![true, false, false]));
    assert!(!needs_default_profile(&vec![false, false, true]));
}

#[test]
fn clock_reads_a_date_of_today() {
    let now = clock_instant().expect("the clock reads after 1970");
    assert!(now.seconds > 1_700_000_000);
    assert!(now.nanos < 1_000_000_000);
    let today = utc_today();
    assert!(is_date_shape(&today), "{today}");
    assert!(today.as_str() >= "2023-11-14");
    let blank = plan_date_prefix("   ");
    assert!(is_date_shape(&blank), "{blank}");
}
