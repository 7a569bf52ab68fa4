use pff::document::MessageFields;
use pff::progress::{IndexStatus, ProgressTracker};
use pff::walker::{emission, Step, TreeWalker};

struct Folder {
    id: u32,
    messages: Vec<u32>,
    folders: Vec<Folder>,
}

fn leaf(id: u32, messages: Vec<u32>) -> Folder {
    Folder { id, messages, folders: Vec::new() }
}

fn archive() -> Folder {
    Folder {
        id: 1,
        messages: vec![10, 11],
        folders: vec![
            Folder {
                id: 8354,
                messages: vec![20],
                folders: vec![leaf(8514, vec![7029316, 7029317]), leaf(8515, vec![])],
            },
            leaf(8400, vec![30, 31, 32]),
            Folder { id: 8500, messages: vec![], folders: vec![leaf(8501, vec![40])] },
        ],
    }
}

/// Drives a walker over the folders as a producer does and gives the ids
/// that it hands out, in order.
fn walk(root: &Folder, tracker: &ProgressTracker) -> Vec<String> {
    let mut walker =
        TreeWalker::new(root, root.messages.len() as i32, root.folders.len() as i32);
    let mut ids = Vec::new();
    loop {
        match walker.next() {
            Step::Done => break,
            Step::Message(index) => {
                let folder: &Folder = *walker.folder().unwrap();
                if let Some(id) = walker.message(tracker, folder.messages[index as usize]) {
                    ids.push(id);
                }
            }
            Step::Folder(index) => {
                let folder: &Folder = *walker.folder().unwrap();
                let sub = &folder.folders[index as usize];
                walker.enter(sub, sub.id, sub.messages.len() as i32, sub.folders.len() as i32);
            }
        }
    }
    ids
}

#[test]
fn messages_come_before_sub_folders_depth_first() {
    let ids = walk(&archive(), &ProgressTracker::new());
    assert_eq!(
        ids,
        vec![
            "10",
            "11",
            "8354_20",
            "8354_8514_7029316",
            "8354_8514_7029317",
            "8400_30",
            "8400_31",
            "8400_32",
            "8500_8501_40"
        ]
    );
}

#[test]
fn recorded_ids_are_not_handed_out_again() {
    let mut tracker = ProgressTracker::new();
    tracker.add_message("8354_8514_7029316".to_string(), IndexStatus::Indexed);
    tracker.add_message("8400_31".to_string(), IndexStatus::Failed);
    let ids = walk(&archive(), &tracker);
    assert_eq!(
        ids,
        vec!["10", "11", "8354_20", "8354_8514_7029317", "8400_30", "8400_32", "8500_8501_40"]
    );
}

#[test]
fn second_run_after_a_full_one_hands_out_nothing() {
    let mut tracker = ProgressTracker::new();
    for id in walk(&archive(), &ProgressTracker::new()) {
        tracker.add_message(id, IndexStatus::Indexed);
    }
    assert!(walk(&archive(), &tracker).is_empty());
}

#[test]
fn empty_root_is_over_at_once() {
    let root = leaf(1, vec![]);
    assert!(walk(&root, &ProgressTracker::new()).is_empty());
    let mut walker: TreeWalker<u8> = TreeWalker::new(0, 0, 0);
    assert_eq!(walker.next(), Step::Done);
    assert!(walker.folder().is_none());
}

#[test]
fn walk_over_nothing_is_over_at_once() {
    let mut walker: TreeWalker<u8> = TreeWalker::empty();
    assert_eq!(walker.next(), Step::Done);
    assert!(walker.folder().is_none());
    walker.enter(3, 3, 5, 5);
    assert_eq!(walker.next(), Step::Done);
}

#[test]
fn negative_counts_mean_nothing_to_fetch() {
    let mut walker: TreeWalker<u8> = TreeWalker::new(0, -1, -7);
    assert_eq!(walker.next(), Step::Done);
}

#[test]
fn walker_asks_for_each_index_in_turn() {
    let tracker = ProgressTracker::new();
    let mut walker: TreeWalker<&str> = TreeWalker::new("root", 2, 1);
    assert_eq!(walker.next(), Step::Message(0));
    assert_eq!(walker.next(), Step::Message(0));
    assert_eq!(walker.folder(), Some(&"root"));
    assert_eq!(walker.message(&tracker, 5).as_deref(), Some("5"));
    assert_eq!(walker.next(), Step::Message(1));
    assert_eq!(walker.message(&tracker, 6).as_deref(), Some("6"));
    assert_eq!(walker.next(), Step::Folder(0));
    walker.enter("sub", 77, 1, 0);
    assert_eq!(walker.folder(), Some(&"sub"));
    assert_eq!(walker.next(), Step::Message(0));
    assert_eq!(walker.message(&tracker, 9).as_deref(), Some("77_9"));
    assert_eq!(walker.next(), Step::Done);
    assert!(walker.folder().is_none());
}

fn fields(subject: &str) -> MessageFields {
    MessageFields {
        subject: Some(subject.to_string()),
        sender_name: None,
        sender_email_address: None,
        recipients: None,
        body: None,
        client_submit_time: None,
        delivery_time: None,
        attachment_names: Vec::new(),
    }
}

#[test]
fn readable_message_goes_out_with_its_document() {
    let (id, message) = emission("1_2".to_string(), true, Some(fields("Hello")));
    assert_eq!(id, "1_2");
    let message = message.unwrap();
    assert_eq!(message.id, "1_2");
    assert_eq!(message.subject, "Hello");
}

#[test]
fn unreadable_message_goes_out_with_its_id_alone() {
    let (id, message) = emission("1_3".to_string(), true, None);
    assert_eq!(id, "1_3");
    assert!(message.is_none());
}

#[test]
fn unreadable_message_does_not_end_the_walk() {
    let tracker = ProgressTracker::new();
    let root = archive();
    let mut walker = TreeWalker::new(&root, 2, 3);
    let mut items = Vec::new();
    loop {
        match walker.next() {
            Step::Done => break,
            Step::Message(index) => {
                let folder: &Folder = *walker.folder().unwrap();
                let own = folder.messages[index as usize];
                if let Some(id) = walker.message(&tracker, own) {
                    let read = if own == 20 { None } else { Some(fields("ok")) };
                    items.push(emission(id, false, read));
                }
            }
            Step::Folder(index) => {
                let folder: &Folder = *walker.folder().unwrap();
                let sub = &folder.folders[index as usize];
                walker.enter(sub, sub.id, sub.messages.len() as i32, sub.folders.len() as i32);
            }
        }
    }
    assert_eq!(items.len(), 9);
    for (id, message) in items {
        assert_eq!(message.is_none(), id == "8354_20");
    }
}
