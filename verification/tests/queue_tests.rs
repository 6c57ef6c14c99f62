use vleer::queue::{Queue, QueueItem, RepeatMode};

fn three_item_queue() -> Queue {
    let mut q = Queue::new();
    q.add(QueueItem::new("a.mp3".to_string()));
    q.add(QueueItem::new("b.mp3".to_string()));
    q.add(QueueItem::new("c.mp3".to_string()));
    q
}

#[test]
fn new_queue_is_empty_with_no_position() {
    let q = Queue::new();
    assert!(q.is_empty());
    assert_eq!(q.len(), 0);
    assert_eq!(q.current_index(), None);
    assert!(!q.is_shuffle());
    assert_eq!(q.repeat_mode(), RepeatMode::Off);
}

#[test]
fn add_to_empty_sets_position_zero() {
    let mut q = Queue::new();
    q.add(QueueItem::new("a.mp3".to_string()));
    assert_eq!(q.current_index(), Some(0));
    assert_eq!(q.len(), 1);
    assert_eq!(q.current().unwrap().path, "a.mp3");
}

#[test]
fn add_many_to_empty_sets_position_zero() {
    let mut q = Queue::new();
    q.add_many(vec![
        QueueItem::new("a.mp3".to_string()),
        QueueItem::new("b.mp3".to_string()),
    ]);
    assert_eq!(q.current_index(), Some(0));
    assert_eq!(q.len(), 2);
}

#[test]
fn add_many_keeps_existing_position() {
    let mut q = three_item_queue();
    q.jump_to(1);
    q.add_many(vec![QueueItem::new("d.mp3".to_string())]);
    assert_eq!(q.current_index(), Some(1));
    assert_eq!(q.len(), 4);
}

#[test]
fn next_off_at_end_returns_none_and_keeps_position() {
    let mut q = three_item_queue();
    q.set_repeat(RepeatMode::Off);
    q.jump_to(2);
    assert!(q.next().is_none());
    assert_eq!(q.current_index(), Some(2));
}

#[test]
fn next_all_at_end_wraps_to_zero() {
    let mut q = three_item_queue();
    q.set_repeat(RepeatMode::All);
    q.jump_to(2);
    let item = q.next().unwrap();
    assert_eq!(item.path, "a.mp3");
    assert_eq!(q.current_index(), Some(0));
}

#[test]
fn next_one_repeats_current() {
    let mut q = three_item_queue();
    q.set_repeat(RepeatMode::One);
    q.jump_to(1);
    assert_eq!(q.next().unwrap().path, "b.mp3");
    assert_eq!(q.current_index(), Some(1));
}

#[test]
fn previous_off_at_start_returns_none() {
    let mut q = three_item_queue();
    assert!(q.previous().is_none());
    assert_eq!(q.current_index(), Some(0));
}

#[test]
fn previous_all_at_start_wraps_to_last() {
    let mut q = three_item_queue();
    q.set_repeat(RepeatMode::All);
    assert_eq!(q.previous().unwrap().path, "c.mp3");
    assert_eq!(q.current_index(), Some(2));
}

#[test]
fn jump_to_out_of_bounds_is_a_no_op() {
    let mut q = three_item_queue();
    q.jump_to(1);
    assert!(q.jump_to(7).is_none());
    assert_eq!(q.current_index(), Some(1));
}

#[test]
fn remove_below_position_shifts_it_down() {
    let mut q = three_item_queue();
    q.jump_to(2);
    let removed = q.remove(0).unwrap();
    assert_eq!(removed.path, "a.mp3");
    assert_eq!(q.current_index(), Some(1));
    assert_eq!(q.current().unwrap().path, "c.mp3");
}

#[test]
fn remove_current_last_caps_position() {
    let mut q = three_item_queue();
    q.jump_to(2);
    q.remove(2);
    assert_eq!(q.current_index(), Some(1));
}

#[test]
fn remove_only_item_clears_position() {
    let mut q = Queue::new();
    q.add(QueueItem::new("a.mp3".to_string()));
    q.remove(0);
    assert!(q.is_empty());
    assert_eq!(q.current_index(), None);
}

#[test]
fn remove_out_of_bounds_returns_none() {
    let mut q = three_item_queue();
    assert!(q.remove(9).is_none());
    assert_eq!(q.len(), 3);
}

#[test]
fn clear_empties_and_keeps_modes() {
    let mut q = three_item_queue();
    q.set_shuffle(true);
    q.set_repeat(RepeatMode::All);
    q.clear();
    assert!(q.is_empty());
    assert_eq!(q.current_index(), None);
    assert!(q.is_shuffle());
    assert_eq!(q.repeat_mode(), RepeatMode::All);
}

#[test]
fn cycle_repeat_walks_all_modes() {
    let mut q = Queue::new();
    q.cycle_repeat();
    assert_eq!(q.repeat_mode(), RepeatMode::All);
    q.cycle_repeat();
    assert_eq!(q.repeat_mode(), RepeatMode::One);
    q.cycle_repeat();
    assert_eq!(q.repeat_mode(), RepeatMode::Off);
}

#[test]
fn toggle_shuffle_flips_flag_only() {
    let mut q = three_item_queue();
    q.jump_to(1);
    q.toggle_shuffle();
    assert!(q.is_shuffle());
    assert_eq!(q.current_index(), Some(1));
    q.toggle_shuffle();
    assert!(!q.is_shuffle());
}

#[test]
fn has_next_and_previous_mirror_boundaries() {
    let mut q = three_item_queue();
    assert!(q.has_next());
    assert!(!q.has_previous());
    q.jump_to(2);
    assert!(!q.has_next());
    assert!(q.has_previous());
    q.set_repeat(RepeatMode::All);
    assert!(q.has_next());
    q.set_repeat(RepeatMode::One);
    assert!(q.has_next());
    let empty = Queue::new();
    assert!(!empty.has_next());
    assert!(!empty.has_previous());
}

#[test]
fn items_reports_in_order() {
    let q = three_item_queue();
    let items = q.items();
    assert_eq!(items.len(), 3);
    assert_eq!(items[0].path, "a.mp3");
    assert_eq!(items[2].path, "c.mp3");
}

#[test]
fn with_metadata_carries_fields() {
    let item = QueueItem::with_metadata(
        "a.mp3".to_string(),
        None,
        Some("Title".to_string()),
        Some("Artist".to_string()),
        None,
        Some(200),
    );
    assert_eq!(item.title.as_deref(), Some("Title"));
    assert_eq!(item.artist_name.as_deref(), Some("Artist"));
    assert_eq!(item.duration, Some(200));
    assert!(item.replaygain_track_gain.is_none());
    assert!(item.replaygain_track_peak.is_none());
}
