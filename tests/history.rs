use roids::history::{History, DEFAULT_MAX_SIZE};

#[test]
fn undo_returns_last_pushed_and_redo_returns_current() {
    let mut h: History<&str> = History::new(DEFAULT_MAX_SIZE);
    h.push("S1");
    h.push("S2");
    assert_eq!(h.undo("S3"), Some("S2"));
    assert!(h.can_redo());
    assert_eq!(h.redo("S2 again"), Some("S3"));
    assert_eq!(h.undo("S3 again"), Some("S2 again"));
    assert_eq!(h.undo("S2 again"), Some("S1"));
}

#[test]
fn undo_on_empty_returns_none_and_keeps_redo() {
    let mut h: History<u32> = History::with_default_size();
    assert_eq!(h.undo(1), None);
    assert!(!h.can_undo());
    assert!(!h.can_redo());

    h.push(1);
    assert_eq!(h.undo(2), Some(1));
    assert_eq!(h.redo_len(), 1);
    assert_eq!(h.undo(3), None);
    assert_eq!(h.redo_len(), 1);
    assert_eq!(h.redo(1), Some(2));
    assert_eq!(h.redo(2), None);
}

#[test]
fn push_clears_redo() {
    let mut h: History<u32> = History::new(10);
    h.push(1);
    assert_eq!(h.undo(2), Some(1));
    assert!(h.can_redo());
    h.push(5);
    assert!(!h.can_redo());
    assert_eq!(h.redo(9), None);
}

#[test]
fn cap_keeps_newest_fifty_of_fifty_one() {
    let mut h: History<u32> = History::new(50);
    for s in 1..=51u32 {
        h.push(s);
    }
    assert_eq!(h.undo_len(), 50);
    let mut seen = Vec::new();
    while let Some(s) = h.undo(0) {
        seen.push(s);
    }
    assert_eq!(seen.len(), 50);
    assert_eq!(seen.first(), Some(&51));
    assert_eq!(seen.last(), Some(&2));
    assert_eq!(seen, (2..=51u32).rev().collect::<Vec<u32>>());
}

#[test]
fn zero_bound_keeps_nothing() {
    let mut h: History<u32> = History::new(0);
    h.push(1);
    assert!(!h.can_undo());
    assert_eq!(h.max_size(), 0);
}
