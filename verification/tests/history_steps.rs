use manim_studio::history::{History, HISTORY_LIMIT};

#[test]
fn new_history_is_empty() {
    let h: History<u32> = History::new();
    assert_eq!(h.len(), 0);
    assert_eq!(h.cursor(), 0);
}

#[test]
fn record_appends_and_moves_cursor_to_end() {
    let mut h: History<u32> = History::new();
    h.record(1);
    h.record(2);
    assert_eq!(h.len(), 2);
    assert_eq!(h.cursor(), 2);
    assert_eq!(*h.get(0), 1);
    assert_eq!(*h.get(1), 2);
}

#[test]
fn step_back_saves_present_then_returns_previous() {
    let mut h: History<u32> = History::new();
    h.record(10);
    let back = h.step_back(11).copied();
    assert_eq!(back, Some(10));
    assert_eq!(h.len(), 2);
    assert_eq!(h.cursor(), 0);
    assert_eq!(*h.get(1), 11);
    // nothing before the start
    assert_eq!(h.step_back(99).copied(), None);
    assert_eq!(h.len(), 2);
    assert_eq!(h.cursor(), 0);
}

#[test]
fn step_forward_returns_what_step_back_left() {
    let mut h: History<u32> = History::new();
    h.record(10);
    h.record(20);
    assert_eq!(h.step_back(30).copied(), Some(20));
    assert_eq!(h.step_back(31).copied(), Some(10));
    // the second step back did not save 31: the cursor was not at the end
    assert_eq!(h.len(), 3);
    assert_eq!(h.step_forward().copied(), Some(20));
    assert_eq!(h.step_forward().copied(), Some(30));
    assert_eq!(h.step_forward().copied(), None);
    assert_eq!(h.cursor(), 2);
}

#[test]
fn record_after_step_back_drops_the_forward_snapshots() {
    let mut h: History<u32> = History::new();
    h.record(1);
    h.record(2);
    h.record(3);
    h.step_back(4);
    h.step_back(4);
    assert_eq!(h.cursor(), 1);
    h.record(7);
    assert_eq!(h.len(), 2);
    assert_eq!(*h.get(0), 1);
    assert_eq!(*h.get(1), 7);
    assert_eq!(h.step_forward().copied(), None);
}

#[test]
fn record_keeps_at_most_the_limit() {
    let mut h: History<usize> = History::new();
    for i in 0..(HISTORY_LIMIT + 1) {
        h.record(i);
    }
    assert_eq!(HISTORY_LIMIT, 50);
    assert_eq!(h.len(), 50);
    assert_eq!(h.cursor(), 50);
    assert_eq!(*h.get(0), 1);
    assert_eq!(*h.get(49), 50);
    // stepping back from a full history saves the present as the 51st
    assert_eq!(h.step_back(999).copied(), Some(50));
    assert_eq!(h.len(), 51);
    assert_eq!(*h.get(50), 999);
}

#[test]
fn discard_last_takes_back_a_record() {
    let mut h: History<u32> = History::new();
    h.record(1);
    h.record(2);
    h.discard_last();
    assert_eq!(h.len(), 1);
    assert_eq!(h.cursor(), 1);
    assert_eq!(*h.get(0), 1);
    h.discard_last();
    h.discard_last();
    assert_eq!(h.len(), 0);
    assert_eq!(h.cursor(), 0);
}

#[test]
fn discard_after_step_back_drops_from_the_cursor_on() {
    let mut h: History<u32> = History::new();
    h.record(1);
    h.record(2);
    h.step_back(3);
    assert_eq!(h.cursor(), 1);
    h.discard_last();
    assert_eq!(h.cursor(), 0);
    assert_eq!(h.len(), 0);
}
