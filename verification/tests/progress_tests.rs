use pff::progress::{IndexStatus, ProgressError, ProgressTracker};

#[test]
fn new_tracker_is_empty() {
    let tracker = ProgressTracker::new();
    assert_eq!(tracker.len(), 0);
    assert!(!tracker.contains_message(&"1_2".to_string()));
    assert_eq!(tracker.to_text(), "");
}

#[test]
fn recorded_ids_are_found() {
    let mut tracker = ProgressTracker::new();
    tracker.add_message("1_2".to_string(), IndexStatus::Indexed);
    tracker.add_message("1_3".to_string(), IndexStatus::Failed);
    assert!(tracker.contains_message(&"1_2".to_string()));
    assert!(tracker.contains_message(&"1_3".to_string()));
    assert!(!tracker.contains_message(&"1_4".to_string()));
    assert_eq!(tracker.status("1_2"), Some(IndexStatus::Indexed));
    assert_eq!(tracker.status("1_3"), Some(IndexStatus::Failed));
    assert_eq!(tracker.status("1_4"), None);
    assert_eq!(tracker.len(), 2);
}

#[test]
fn last_write_wins() {
    let mut tracker = ProgressTracker::new();
    tracker.add_message("7".to_string(), IndexStatus::Failed);
    tracker.add_message("8".to_string(), IndexStatus::Failed);
    tracker.add_message("7".to_string(), IndexStatus::Indexed);
    assert_eq!(tracker.status("7"), Some(IndexStatus::Indexed));
    assert_eq!(tracker.len(), 2);
    assert_eq!(tracker.to_text(), "7,Indexed\n8,Failed\n");
}

#[test]
fn text_has_one_line_per_id() {
    let mut tracker = ProgressTracker::new();
    tracker.add_message("8354_8514_7029316".to_string(), IndexStatus::Indexed);
    tracker.add_message("8354_12".to_string(), IndexStatus::Failed);
    assert_eq!(tracker.to_text(), "8354_8514_7029316,Indexed\n8354_12,Failed\n");
}

#[test]
fn saved_then_reloaded_is_the_same_mapping() {
    let mut tracker = ProgressTracker::new();
    for n in 0..300u32 {
        let status = if n % 3 == 0 { IndexStatus::Failed } else { IndexStatus::Indexed };
        tracker.add_message(format!("10_{}", n), status);
    }
    let reloaded = ProgressTracker::from_text(&tracker.to_text()).unwrap();
    assert_eq!(reloaded.len(), 300);
    for n in 0..300u32 {
        let id = format!("10_{}", n);
        assert_eq!(reloaded.status(&id), tracker.status(&id));
    }
    assert_eq!(reloaded.to_text(), tracker.to_text());
}

#[test]
fn empty_text_is_an_empty_record() {
    let tracker = ProgressTracker::from_text("").unwrap();
    assert_eq!(tracker.len(), 0);
}

#[test]
fn empty_lines_and_a_missing_last_line_end_are_accepted() {
    let tracker = ProgressTracker::from_text("\n1_2,Indexed\n\n1_3,Failed").unwrap();
    assert_eq!(tracker.len(), 2);
    assert_eq!(tracker.status("1_2"), Some(IndexStatus::Indexed));
    assert_eq!(tracker.status("1_3"), Some(IndexStatus::Failed));
}

#[test]
fn later_line_for_the_same_id_counts() {
    let tracker = ProgressTracker::from_text("5,Failed\n5,Indexed\n").unwrap();
    assert_eq!(tracker.len(), 1);
    assert_eq!(tracker.status("5"), Some(IndexStatus::Indexed));
}

#[test]
fn id_may_hold_commas() {
    let tracker = ProgressTracker::from_text("a,b,Indexed\n").unwrap();
    assert_eq!(tracker.status("a,b"), Some(IndexStatus::Indexed));
}

#[test]
fn unknown_tag_is_corrupt() {
    assert!(matches!(
        ProgressTracker::from_text("1_2,Done\n"),
        Err(ProgressError::CorruptProgressFile)
    ));
    assert!(matches!(
        ProgressTracker::from_text("1_2,indexed\n"),
        Err(ProgressError::CorruptProgressFile)
    ));
    assert!(matches!(
        ProgressTracker::from_text("1_2,Indexed \n"),
        Err(ProgressError::CorruptProgressFile)
    ));
}

#[test]
fn line_without_comma_is_corrupt() {
    assert!(matches!(
        ProgressTracker::from_text("1_2,Indexed\nIndexed\n"),
        Err(ProgressError::CorruptProgressFile)
    ));
}

#[test]
fn corrupt_line_spoils_a_text_that_goes_on_well() {
    assert!(matches!(
        ProgressTracker::from_text("1_2\n1_3,Failed\n"),
        Err(ProgressError::CorruptProgressFile)
    ));
}

#[test]
fn tags_are_the_two_literals() {
    assert_eq!(IndexStatus::Indexed.tag(), "Indexed");
    assert_eq!(IndexStatus::Failed.tag(), "Failed");
}

#[test]
fn id_with_a_line_end_does_not_read_back() {
    let mut tracker = ProgressTracker::new();
    tracker.add_message("a\nb".to_string(), IndexStatus::Indexed);
    assert_eq!(tracker.to_text(), "a\nb,Indexed\n");
    assert!(matches!(
        ProgressTracker::from_text(&tracker.to_text()),
        Err(ProgressError::CorruptProgressFile)
    ));
}

#[test]
fn ids_with_commas_and_quotes_read_back() {
    let mut tracker = ProgressTracker::new();
    tracker.add_message("a,b".to_string(), IndexStatus::Indexed);
    tracker.add_message("\"q\"".to_string(), IndexStatus::Failed);
    tracker.add_message(String::new(), IndexStatus::Failed);
    tracker.add_message(",Indexed".to_string(), IndexStatus::Failed);
    let reloaded = ProgressTracker::from_text(&tracker.to_text()).unwrap();
    assert_eq!(reloaded.len(), 4);
    assert_eq!(reloaded.status("a,b"), Some(IndexStatus::Indexed));
    assert_eq!(reloaded.status("\"q\""), Some(IndexStatus::Failed));
    assert_eq!(reloaded.status(""), Some(IndexStatus::Failed));
    assert_eq!(reloaded.status(",Indexed"), Some(IndexStatus::Failed));
}
