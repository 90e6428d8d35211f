use termi_talk::editor::Editor;

#[test]
fn editor_deletes_whole_scalar_values() {
    let mut e = Editor::new();
    for c in "héllo".chars() {
        e.insert(c);
    }
    assert_eq!(e.cursor(), 5);
    e.delete_before_cursor();
    e.delete_before_cursor();
    assert_eq!(e.snapshot(), "hél");
    e.delete_before_cursor();
    assert_eq!(e.snapshot(), "hé");
    assert_eq!(e.cursor(), 2);
}

#[test]
fn editor_insert_then_delete_twice() {
    let mut e = Editor::new();
    for c in "héllo".chars() {
        e.insert(c);
    }
    e.delete_before_cursor();
    e.delete_before_cursor();
    assert_eq!(e.snapshot(), "hél");
    assert_eq!(e.cursor(), 3);
    assert_eq!(e.len(), 3);
}

#[test]
fn editor_cursor_stays_in_buffer() {
    let mut e = Editor::new();
    e.move_left();
    assert_eq!(e.cursor(), 0);
    e.delete_before_cursor();
    assert_eq!(e.snapshot(), "");
    e.insert('a');
    e.insert('c');
    e.move_right();
    assert_eq!(e.cursor(), 2);
    e.move_left();
    e.insert('ü');
    assert_eq!(e.snapshot(), "aüc");
    assert_eq!(e.cursor(), 2);
    e.move_left();
    e.move_left();
    e.move_left();
    assert_eq!(e.cursor(), 0);
    e.delete_before_cursor();
    assert_eq!(e.snapshot(), "aüc");
    e.clear();
    assert_eq!(e.snapshot(), "");
    assert_eq!(e.cursor(), 0);
}
