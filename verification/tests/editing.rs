use lineshell::EditBuffer;
use lineshell::HistoryLog;

fn chars(s: &str) -> Vec<char> {
    s.chars().collect()
}

fn text_of(v: &[char]) -> String {
    v.iter().collect()
}

#[test]
fn insert_advances_cursor() {
    let mut b = EditBuffer::new();
    b.insert('a');
    b.insert('b');
    assert_eq!(text_of(&b.text), "ab");
    assert_eq!(b.cursor, 2);
}

#[test]
fn insert_at_cursor_in_middle() {
    let mut b = EditBuffer::new();
    b.insert('a');
    b.insert('c');
    assert!(b.move_left());
    b.insert('b');
    assert_eq!(text_of(&b.text), "abc");
    assert_eq!(b.cursor, 2);
}

#[test]
fn multibyte_codepoints_count_as_one() {
    let mut b = EditBuffer::new();
    b.insert('é');
    b.insert('漢');
    assert_eq!(b.snapshot_length(), 2);
    assert!(b.delete_before());
    assert_eq!(text_of(&b.text), "é");
    assert_eq!(b.cursor, 1);
}

#[test]
fn inserts_then_deletes_restore_buffer() {
    let mut b = EditBuffer::new();
    b.replace_all(chars("state"));
    assert!(b.move_left());
    let saved_text = text_of(&b.text);
    let saved_cursor = b.cursor;
    b.insert('x');
    b.insert('y');
    assert!(b.delete_before());
    assert!(b.delete_before());
    assert_eq!(text_of(&b.text), saved_text);
    assert_eq!(b.cursor, saved_cursor);
}

#[test]
fn delete_then_reinsert_restores_buffer() {
    let mut b = EditBuffer::new();
    b.replace_all(chars("abc"));
    let saved_text = text_of(&b.text);
    let saved_cursor = b.cursor;
    assert!(b.delete_before());
    b.insert('c');
    assert_eq!(text_of(&b.text), saved_text);
    assert_eq!(b.cursor, saved_cursor);
}

#[test]
fn boundary_moves_change_nothing() {
    let mut b = EditBuffer::new();
    b.replace_all(chars("hi"));
    assert!(!b.move_right());
    assert_eq!(b.cursor, 2);
    assert!(b.move_left());
    assert!(b.move_left());
    assert!(!b.move_left());
    assert_eq!(b.cursor, 0);
    assert!(!b.delete_before());
    assert_eq!(text_of(&b.text), "hi");
    assert_eq!(b.cursor, 0);
}

#[test]
fn replace_all_puts_cursor_at_end() {
    let mut b = EditBuffer::new();
    b.replace_all(chars("hello"));
    assert_eq!(b.cursor, 5);
    assert_eq!(b.back_offset(), 0);
    assert!(b.move_left());
    assert_eq!(b.back_offset(), 1);
}

#[test]
fn history_starts_with_one_live_slot() {
    let h = HistoryLog::new();
    assert_eq!(h.entries.len(), 1);
    assert!(h.entries[0].is_empty());
    assert_eq!(h.position, 0);
}

#[test]
fn recall_previous_at_oldest_signals_boundary() {
    let mut h = HistoryLog::new();
    assert!(h.recall_previous().is_none());
    assert_eq!(h.entries.len(), 1);
    assert_eq!(h.position, 0);
}

#[test]
fn recall_next_at_live_slot_signals_boundary() {
    let mut h = HistoryLog::new();
    h.set_live(&chars("ls"));
    h.push();
    assert!(h.recall_next().is_none());
    assert_eq!(h.entries.len(), 2);
    assert_eq!(h.position, 1);
}

#[test]
fn recall_walks_entries_without_mutating_them() {
    let mut h = HistoryLog::new();
    h.set_live(&chars("first"));
    h.push();
    h.set_live(&chars("second"));
    h.push();
    let up1 = h.recall_previous().expect("one step back");
    assert_eq!(text_of(&up1), "second");
    let up2 = h.recall_previous().expect("two steps back");
    assert_eq!(text_of(&up2), "first");
    assert!(h.recall_previous().is_none());
    assert_eq!(text_of(&h.entries[0]), "first");
    assert_eq!(text_of(&h.entries[1]), "second");
    assert!(h.entries[2].is_empty());
    let down = h.recall_next().expect("one step forward");
    assert_eq!(text_of(&down), "second");
}

#[test]
fn set_live_overwrites_only_the_live_slot() {
    let mut h = HistoryLog::new();
    h.set_live(&chars("old"));
    h.push();
    h.set_live(&chars("draft"));
    assert_eq!(text_of(&h.entries[0]), "old");
    assert_eq!(text_of(&h.entries[1]), "draft");
    h.set_live(&chars("draft2"));
    assert_eq!(text_of(&h.entries[0]), "old");
    assert_eq!(text_of(&h.entries[1]), "draft2");
}
