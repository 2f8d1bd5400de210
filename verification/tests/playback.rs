use meowify::playback::{PlaybackQueue, PlaybackSource, QueueError, QueueItem, RepeatMode};

fn item(id: &str) -> QueueItem {
    QueueItem {
        id: id.to_string(),
        source: PlaybackSource::SoundCloudTrack {
            urn: format!("soundcloud:tracks:{id}"),
        },
        title: id.to_string(),
    }
}

fn queue_of(ids: &[&str]) -> PlaybackQueue {
    let mut queue = PlaybackQueue::default();
    for id in ids {
        queue.push(item(id));
    }
    queue
}

fn current_id(queue: &PlaybackQueue) -> Option<String> {
    queue.current().map(|i| i.id.clone())
}

#[test]
fn queue_advances_and_stops() {
    let mut queue = PlaybackQueue::default();
    queue.push(item("1"));
    queue.push(item("2"));

    assert_eq!(queue.current().unwrap().id, "1");
    assert_eq!(queue.next(RepeatMode::Off).unwrap().id, "2");
    assert!(queue.next(RepeatMode::Off).is_none());
}

#[test]
fn repeat_all_wraps() {
    let mut queue = PlaybackQueue::default();
    queue.push(item("1"));
    queue.push(item("2"));

    assert_eq!(queue.next(RepeatMode::All).unwrap().id, "2");
    assert_eq!(queue.next(RepeatMode::All).unwrap().id, "1");
}

#[test]
fn empty_queue_has_no_current_item() {
    let mut queue = PlaybackQueue::default();
    assert!(queue.current().is_none());
    assert!(queue.next(RepeatMode::All).is_none());
    assert!(queue.next(RepeatMode::One).is_none());
}

#[test]
fn repeat_one_stays_on_the_current_item() {
    let mut queue = queue_of(&["a", "b", "c"]);
    for _ in 0..5 {
        assert_eq!(queue.next(RepeatMode::One).unwrap().id, "a");
    }
}

#[test]
fn repeat_all_returns_after_a_full_cycle() {
    let mut queue = queue_of(&["a", "b", "c"]);
    queue.next(RepeatMode::All);
    let start = current_id(&queue);
    for _ in 0..3 {
        queue.next(RepeatMode::All);
    }
    assert_eq!(current_id(&queue), start);
    assert_eq!(start.as_deref(), Some("b"));
}

#[test]
fn repeat_off_ends_after_the_last_item() {
    let mut queue = queue_of(&["a", "b", "c"]);
    assert_eq!(queue.next(RepeatMode::Off).unwrap().id, "b");
    assert_eq!(queue.next(RepeatMode::Off).unwrap().id, "c");
    assert!(queue.next(RepeatMode::Off).is_none());
    // Once stopped, further "next" stays stopped whatever the mode.
    assert!(queue.next(RepeatMode::All).is_none());
    assert!(queue.current().is_none());
}

#[test]
fn push_after_the_end_restarts_from_the_first_item() {
    let mut queue = queue_of(&["a"]);
    assert!(queue.next(RepeatMode::Off).is_none());
    queue.push(item("b"));
    assert_eq!(current_id(&queue).as_deref(), Some("a"));
}

#[test]
fn push_keeps_the_current_item() {
    let mut queue = queue_of(&["a", "b"]);
    queue.next(RepeatMode::Off);
    queue.push(item("c"));
    assert_eq!(current_id(&queue).as_deref(), Some("b"));
}

#[test]
fn remove_returns_the_item_and_clamps_the_cursor() {
    let mut queue = queue_of(&["a", "b", "c"]);
    queue.next(RepeatMode::Off);
    queue.next(RepeatMode::Off);
    assert_eq!(current_id(&queue).as_deref(), Some("c"));

    assert_eq!(queue.remove("c"), Ok(item("c")));
    assert_eq!(current_id(&queue).as_deref(), Some("b"));

    assert_eq!(queue.remove("a"), Ok(item("a")));
    assert_eq!(current_id(&queue).as_deref(), Some("b"));

    assert_eq!(queue.remove("b"), Ok(item("b")));
    assert!(queue.current().is_none());
}

#[test]
fn remove_of_a_missing_item_fails_and_changes_nothing() {
    let mut queue = queue_of(&["a", "b"]);
    assert_eq!(queue.remove("zzz"), Err(QueueError::ItemNotFound));
    assert_eq!(current_id(&queue).as_deref(), Some("a"));
    assert_eq!(queue.next(RepeatMode::Off).unwrap().id, "b");
    assert_eq!(QueueError::ItemNotFound.message(), "queue item not found");
}

#[test]
fn queue_remove_takes_the_first_item_with_the_id() {
    let mut queue = PlaybackQueue::default();
    queue.push(item("x"));
    queue.push(QueueItem {
        id: "x".to_string(),
        source: PlaybackSource::ImportedLocalFile {
            path: "/music/x.flac".to_string(),
        },
        title: "second".to_string(),
    });

    let removed = queue.remove("x").unwrap();
    assert_eq!(removed.title, "x");
    assert_eq!(queue.current().unwrap().title, "second");
}
