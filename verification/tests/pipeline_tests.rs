use pff::document::{Agent, Message};
use pff::pipeline::{Coordinator, BATCH_SIZE, CHANNEL_CAPACITY, PRIMARY_KEY};
use pff::progress::{IndexStatus, ProgressTracker};

fn document(id: &str) -> Message {
    Message {
        id: id.to_string(),
        subject: format!("subject of {}", id),
        sender: Agent::new(None, None),
        recipients: Vec::new(),
        body: None,
        send_time: None,
        delivery_time: None,
        has_attachments: false,
        attachments: None,
    }
}

/// Runs the items through a coordinator as a consumer does and gives the
/// ids of each submission.
fn run(items: Vec<(String, Option<Message>)>, tracker: &mut ProgressTracker) -> Vec<Vec<String>> {
    let mut coordinator = Coordinator::new();
    let mut submissions = Vec::new();
    for (id, message) in items {
        if let Some(batch) = coordinator.receive(tracker, id, message) {
            submissions.push(batch.iter().map(|m| m.id.clone()).collect());
            coordinator.submitted(tracker, &batch);
        }
    }
    if let Some(batch) = coordinator.finish() {
        submissions.push(batch.iter().map(|m| m.id.clone()).collect());
        coordinator.submitted(tracker, &batch);
    }
    assert_eq!(coordinator.pending(), 0);
    submissions
}

#[test]
fn batch_size_and_key_are_fixed() {
    assert_eq!(BATCH_SIZE, 100);
    assert_eq!(PRIMARY_KEY, "id");
    assert_eq!(CHANNEL_CAPACITY, 1024);
}

#[test]
fn two_hundred_and_fifty_documents_make_three_submissions() {
    let items: Vec<_> =
        (0..250).map(|n| (format!("1_{}", n), Some(document(&format!("1_{}", n))))).collect();
    let mut tracker = ProgressTracker::new();
    let submissions = run(items, &mut tracker);
    let sizes: Vec<usize> = submissions.iter().map(|batch| batch.len()).collect();
    assert_eq!(sizes, vec![100, 100, 50]);
    let all: Vec<String> = submissions.into_iter().flatten().collect();
    let expected: Vec<String> = (0..250).map(|n| format!("1_{}", n)).collect();
    assert_eq!(all, expected);
    for id in expected {
        assert_eq!(tracker.status(&id), Some(IndexStatus::Indexed));
    }
}

#[test]
fn exact_multiple_leaves_no_partial_batch() {
    let items: Vec<_> =
        (0..200).map(|n| (format!("{}", n), Some(document(&format!("{}", n))))).collect();
    let mut tracker = ProgressTracker::new();
    let sizes: Vec<usize> = run(items, &mut tracker).iter().map(|batch| batch.len()).collect();
    assert_eq!(sizes, vec![100, 100]);
}

#[test]
fn empty_stream_submits_nothing() {
    let mut tracker = ProgressTracker::new();
    assert!(run(Vec::new(), &mut tracker).is_empty());
    assert_eq!(tracker.len(), 0);
}

#[test]
fn batch_falls_due_with_its_hundredth_document() {
    let mut tracker = ProgressTracker::new();
    let mut coordinator = Coordinator::new();
    for n in 0..99 {
        let id = format!("{}", n);
        assert!(coordinator.receive(&mut tracker, id.clone(), Some(document(&id))).is_none());
    }
    assert_eq!(coordinator.pending(), 99);
    assert_eq!(tracker.len(), 0);
    let batch = coordinator.receive(&mut tracker, "99".to_string(), Some(document("99"))).unwrap();
    assert_eq!(batch.len(), 100);
    assert_eq!(batch[0].id, "0");
    assert_eq!(batch[99].id, "99");
    assert_eq!(coordinator.pending(), 0);
    assert_eq!(tracker.len(), 0);
    assert_eq!(coordinator.submitted(&mut tracker, &batch), 100);
    assert!(coordinator.finish().is_none());
    assert_eq!(tracker.len(), 100);
}

#[test]
fn failure_is_recorded_at_once_and_joins_no_batch() {
    let mut tracker = ProgressTracker::new();
    let mut coordinator = Coordinator::new();
    assert!(coordinator.receive(&mut tracker, "1_7".to_string(), None).is_none());
    assert_eq!(tracker.status("1_7"), Some(IndexStatus::Failed));
    assert_eq!(coordinator.pending(), 0);
    assert!(coordinator.finish().is_none());
}

#[test]
fn one_unreadable_message_does_not_stop_the_rest() {
    let mut items = Vec::new();
    for n in 0..150 {
        let id = format!("4_{}", n);
        if n == 20 {
            items.push((id, None));
        } else {
            let message = document(&id);
            items.push((id, Some(message)));
        }
    }
    let mut tracker = ProgressTracker::new();
    let submissions = run(items, &mut tracker);
    let sizes: Vec<usize> = submissions.iter().map(|batch| batch.len()).collect();
    assert_eq!(sizes, vec![100, 49]);
    for n in 0..150 {
        let expected = if n == 20 { IndexStatus::Failed } else { IndexStatus::Indexed };
        assert_eq!(tracker.status(&format!("4_{}", n)), Some(expected));
    }
    assert!(!submissions.iter().flatten().any(|id| id == "4_20"));
}

#[test]
fn count_of_indexed_documents_runs_on() {
    let mut tracker = ProgressTracker::new();
    let mut coordinator = Coordinator::new();
    coordinator.receive(&mut tracker, "1".to_string(), Some(document("1")));
    coordinator.receive(&mut tracker, "2".to_string(), Some(document("2")));
    let batch = coordinator.finish().unwrap();
    assert_eq!(coordinator.submitted(&mut tracker, &batch), 2);
    coordinator.receive(&mut tracker, "3".to_string(), Some(document("3")));
    let batch = coordinator.finish().unwrap();
    assert_eq!(coordinator.submitted(&mut tracker, &batch), 3);
    assert_eq!(coordinator.submitted(&mut tracker, &Vec::new()), 3);
}

#[test]
fn same_id_submitted_twice_is_recorded_once() {
    let mut tracker = ProgressTracker::new();
    let mut coordinator = Coordinator::new();
    for _ in 0..2 {
        coordinator.receive(&mut tracker, "9".to_string(), Some(document("9")));
        let batch = coordinator.finish().unwrap();
        coordinator.submitted(&mut tracker, &batch);
    }
    assert_eq!(tracker.len(), 1);
    assert_eq!(tracker.status("9"), Some(IndexStatus::Indexed));
}

#[test]
fn indexing_overrides_an_earlier_failure() {
    let mut tracker = ProgressTracker::new();
    tracker.add_message("5".to_string(), IndexStatus::Failed);
    let mut coordinator = Coordinator::new();
    coordinator.receive(&mut tracker, "5".to_string(), Some(document("5")));
    assert_eq!(tracker.status("5"), Some(IndexStatus::Failed));
    let batch = coordinator.finish().unwrap();
    coordinator.submitted(&mut tracker, &batch);
    assert_eq!(tracker.status("5"), Some(IndexStatus::Indexed));
}

#[test]
fn resubmitted_document_overwrites_the_earlier_one() {
    // an index that inserts or overwrites by id
    let mut index: std::collections::HashMap<String, String> = std::collections::HashMap::new();
    let mut tracker = ProgressTracker::new();
    let mut coordinator = Coordinator::new();
    let mut upsert =
        |batch: Vec<Message>, coordinator: &mut Coordinator, tracker: &mut ProgressTracker| {
            for message in &batch {
                index.insert(message.id.clone(), message.subject.clone());
            }
            coordinator.submitted(tracker, &batch);
        };
    for round in 0..2 {
        for n in 0..150 {
            let mut message = document(&format!("2_{}", n));
            message.subject = format!("round {} of {}", round, n);
            if let Some(batch) = coordinator.receive(&mut tracker, format!("2_{}", n), Some(message)) {
                upsert(batch, &mut coordinator, &mut tracker);
            }
        }
    }
    if let Some(batch) = coordinator.finish() {
        upsert(batch, &mut coordinator, &mut tracker);
    }
    assert_eq!(index.len(), 150);
    for n in 0..150 {
        assert_eq!(index[&format!("2_{}", n)], format!("round 1 of {}", n));
    }
    assert_eq!(tracker.len(), 150);
}
