use rustbot::history::History;

fn filled(size: usize, entries: &[&str]) -> History {
    let mut h = History::new(size);
    for e in entries {
        h.add(e.to_string());
    }
    h
}

#[test]
fn history_keeps_last_entries_in_order() {
    let h = filled(3, &["a", "b", "c", "d", "e"]);
    assert_eq!(h.string(), "c\nd\ne");
}

#[test]
fn history_below_capacity_keeps_all() {
    let h = filled(5, &["first", "second"]);
    assert_eq!(h.string(), "first\nsecond");
}

#[test]
fn history_empty_is_empty_text() {
    let h = History::new(4);
    assert_eq!(h.string(), "");
}

#[test]
fn history_no_trailing_newline() {
    let h = filled(2, &["x", "y", "z"]);
    let s = h.string();
    assert!(!s.ends_with('\n'));
    assert_eq!(s, "y\nz");
}

#[test]
fn history_capacity_one_keeps_latest() {
    let h = filled(1, &["one", "two", "three"]);
    assert_eq!(h.string(), "three");
}

#[test]
fn history_capacity_zero_keeps_nothing() {
    let h = filled(0, &["one", "two"]);
    assert_eq!(h.string(), "");
}

#[test]
fn history_exactly_full() {
    let h = filled(3, &["a", "b", "c"]);
    assert_eq!(h.string(), "a\nb\nc");
}
