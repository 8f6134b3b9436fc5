use rustwave::models::SoundCloudTrack;
use rustwave::models::SoundCloudUser;
use rustwave::queue::get_track_queue;
use rustwave::queue::QueueManager;

fn user(name: &str) -> SoundCloudUser {
    SoundCloudUser {
        urn: format!("soundcloud:users:{name}"),
        username: name.to_string(),
        full_name: name.to_string(),
        avatar_url: String::new(),
        followers_count: None,
    }
}

fn track(id: u64, title: &str) -> SoundCloudTrack {
    SoundCloudTrack {
        id,
        stream_url: Some(format!("https://streams.example/{id}")),
        title: title.to_string(),
        user: user("someone"),
        duration: 180_000,
        access: "playable".to_string(),
        playback_count: Some(7),
        favoritings_count: Some(3),
        reposts_count: None,
        artwork_url: String::new(),
        waveform_url: String::new(),
    }
}

#[test]
fn queue_from_b_is_suffix_with_cursor_at_start() {
    let a = track(1, "A");
    let b = track(2, "B");
    let c = track(3, "C");
    let mut q = QueueManager::new();
    q.start_queue_from_track(2, vec![a, b.clone(), c.clone()]);
    assert_eq!(q.queue_length(), 2);
    assert_eq!(q.current_position(), Some(0));
    assert_eq!(q.current_track(), Some(&b));
    let shown = q.get_queue();
    assert_eq!(shown, vec![&b, &c]);
}

#[test]
fn scenario_abc_from_b() {
    let a = track(1, "A");
    let b = track(2, "B");
    let c = track(3, "C");
    let mut q = QueueManager::new();
    q.start_queue_from_track(2, vec![a, b.clone(), c.clone()]);
    assert_eq!(q.next_track(), Some(&c));
    assert!(!q.has_next());
    assert_eq!(q.previous_track(), Some(&b));
    assert_eq!(q.current_position(), Some(0));
}

#[test]
fn absent_track_id_yields_empty_queue() {
    let a = track(1, "A");
    let b = track(2, "B");
    let mut q = QueueManager::new();
    q.start_queue_from_track(99, vec![a, b]);
    assert_eq!(q.queue_length(), 0);
    assert!(q.is_empty());
    assert_eq!(q.current_position(), None);
    assert_eq!(q.current_track(), None);
    assert!(!q.has_next());
    assert!(!q.has_previous());
}

#[test]
fn empty_listing_yields_empty_queue() {
    let mut q = QueueManager::new();
    q.start_queue_from_track(1, Vec::new());
    assert!(q.is_empty());
    assert_eq!(q.current_track(), None);
}

#[test]
fn first_occurrence_wins() {
    let mut q = QueueManager::new();
    let dup_early = track(5, "first five");
    let dup_late = track(5, "second five");
    q.start_queue_from_track(5, vec![track(1, "A"), dup_early.clone(), track(2, "B"), dup_late]);
    assert_eq!(q.queue_length(), 3);
    assert_eq!(q.current_track(), Some(&dup_early));
}

#[test]
fn next_at_last_index_is_a_noop() {
    let a = track(1, "A");
    let b = track(2, "B");
    let mut q = QueueManager::new();
    q.start_queue_from_track(2, vec![a, b]);
    assert_eq!(q.queue_length(), 1);
    assert_eq!(q.next_track(), None);
    assert_eq!(q.current_position(), Some(0));
    assert_eq!(q.next_track(), None);
    assert_eq!(q.current_position(), Some(0));
}

#[test]
fn previous_at_first_index_is_a_noop() {
    let mut q = QueueManager::new();
    q.start_queue_from_track(1, vec![track(1, "A"), track(2, "B")]);
    assert_eq!(q.previous_track(), None);
    assert_eq!(q.current_position(), Some(0));
    assert!(q.has_next());
    assert!(!q.has_previous());
}

#[test]
fn cursor_stays_inside_bounds_under_navigation() {
    let mut q = QueueManager::new();
    q.start_queue_from_track(1, vec![track(1, "A"), track(2, "B"), track(3, "C")]);
    for _ in 0..10 {
        q.next_track();
        let p = q.current_position().unwrap();
        assert!(p < q.queue_length());
    }
    assert_eq!(q.current_position(), Some(2));
    for _ in 0..10 {
        q.previous_track();
        let p = q.current_position().unwrap();
        assert!(p < q.queue_length());
    }
    assert_eq!(q.current_position(), Some(0));
}

#[test]
fn reset_to_beginning_keeps_contents() {
    let a = track(1, "A");
    let mut q = QueueManager::new();
    q.start_queue_from_track(1, vec![a.clone(), track(2, "B"), track(3, "C")]);
    q.next_track();
    q.next_track();
    assert_eq!(q.current_position(), Some(2));
    q.reset_to_beginning();
    assert_eq!(q.current_position(), Some(0));
    assert_eq!(q.queue_length(), 3);
    assert_eq!(q.current_track(), Some(&a));
}

#[test]
fn reset_on_empty_queue_leaves_cursor_unset() {
    let mut q = QueueManager::new();
    q.reset_to_beginning();
    assert_eq!(q.current_position(), None);
}

#[test]
fn clear_empties_queue_and_cursor() {
    let mut q = QueueManager::new();
    q.start_queue_from_track(1, vec![track(1, "A"), track(2, "B")]);
    q.clear();
    assert!(q.is_empty());
    assert_eq!(q.current_position(), None);
    assert_eq!(q.queue_length(), 0);
}

#[test]
fn get_track_queue_returns_suffix() {
    let a = track(1, "A");
    let b = track(2, "B");
    let c = track(3, "C");
    let suffix = get_track_queue(2, vec![a, b.clone(), c.clone()]);
    assert_eq!(suffix, vec![b, c]);
}

#[test]
fn get_track_queue_absent_id_is_empty() {
    let suffix = get_track_queue(9, vec![track(1, "A"), track(2, "B")]);
    assert!(suffix.is_empty());
}

#[test]
fn default_queue_is_empty() {
    let q = QueueManager::default();
    assert!(q.is_empty());
    assert_eq!(q.current_position(), None);
}
