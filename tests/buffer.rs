use iced::widget::markdown;
use iced::widget::text_editor::{Action, Edit, Motion};
use weblib::buffer::{Buffers, FileBuffer};

fn parsed(text: &str) -> String {
    format!("{:?}", markdown::parse(text).collect::<Vec<_>>())
}

#[test]
fn new_buffer_parses_its_text() {
    let b = FileBuffer::new("# Hi\n\nsome *text*");
    assert_eq!(format!("{:?}", b.md_items()), parsed("# Hi\n\nsome *text*"));
    assert!(!b.md_items().is_empty());
}

#[test]
fn contents_end_with_a_newline() {
    let b = FileBuffer::new("# Hi");
    assert_eq!(b.contents(), "# Hi\n");
    let c = FileBuffer::new("a\nb\n");
    assert_eq!(c.contents(), "a\nb\n");
}

#[test]
fn cursor_moves_do_not_write() {
    let mut b = FileBuffer::new("# Hi");
    let before = format!("{:?}", b.md_items());
    assert_eq!(b.apply(Action::Move(Motion::DocumentEnd)), None);
    assert_eq!(b.apply(Action::SelectAll), None);
    assert_eq!(format!("{:?}", b.md_items()), before);
    assert_eq!(b.contents(), "# Hi\n");
}

#[test]
fn insertion_reparses_and_returns_text() {
    let mut b = FileBuffer::new("# Hi");
    b.apply(Action::Move(Motion::DocumentEnd));
    let written = b.apply(Action::Edit(Edit::Insert('!'))).unwrap();
    assert_eq!(written, "# Hi!\n");
    assert_eq!(b.contents(), written);
    assert_eq!(format!("{:?}", b.md_items()), parsed(&written));
    assert_eq!(format!("{:?}", b.md_items()), parsed("# Hi!"));
}

#[test]
fn deletion_counts_as_an_edit() {
    let mut b = FileBuffer::new("ab");
    b.apply(Action::Move(Motion::DocumentEnd));
    assert_eq!(b.apply(Action::Edit(Edit::Backspace)).as_deref(), Some("a\n"));
}

#[test]
fn refresh_without_edit_keeps_buffer() {
    let mut b = FileBuffer::new("x");
    assert_eq!(b.refresh(false), None);
    assert_eq!(b.refresh(true).as_deref(), Some("x\n"));
}

#[test]
fn cache_insert_and_lookup() {
    let mut cache = Buffers::new();
    let p = "/v/a.md".to_string();
    assert!(!cache.contains_key(&p));
    assert!(cache.get(&p).is_none());
    cache.insert(p.clone(), FileBuffer::new("one"));
    assert!(cache.contains_key(&p));
    assert_eq!(cache.get(&p).unwrap().contents(), "one\n");
    cache.insert(p.clone(), FileBuffer::new("two"));
    assert_eq!(cache.get(&p).unwrap().contents(), "two\n");
    cache.insert("/v/b.md".to_string(), FileBuffer::new("three"));
    assert_eq!(cache.get(&p).unwrap().contents(), "two\n");
    assert_eq!(cache.get(&"/v/b.md".to_string()).unwrap().contents(), "three\n");
}

#[test]
fn cache_edit_of_missing_path_does_nothing() {
    let mut cache = Buffers::new();
    cache.insert("/v/a.md".to_string(), FileBuffer::new("a"));
    let missing = "/v/none.md".to_string();
    assert_eq!(cache.apply_edit(&missing, Action::Edit(Edit::Insert('x'))), None);
    assert!(!cache.contains_key(&missing));
    assert_eq!(cache.get(&"/v/a.md".to_string()).unwrap().contents(), "a\n");
}

#[test]
fn cache_edit_reaches_the_buffer() {
    let mut cache = Buffers::new();
    let p = "/v/a.md".to_string();
    cache.insert(p.clone(), FileBuffer::new("a"));
    assert_eq!(cache.apply_edit(&p, Action::Edit(Edit::Insert('x'))).as_deref(), Some("xa\n"));
    assert_eq!(cache.get(&p).unwrap().contents(), "xa\n");
}

#[test]
fn every_edit_kind_returns_a_write() {
    let mut b = FileBuffer::new("ab");
    b.apply(Action::Move(Motion::DocumentEnd));
    assert_eq!(b.apply(Action::Edit(Edit::Paste(std::sync::Arc::new("cd".to_string())))).as_deref(), Some("abcd\n"));
    assert_eq!(b.apply(Action::Edit(Edit::Enter)).as_deref(), Some("abcd\n"));
    b.apply(Action::Move(Motion::DocumentStart));
    assert_eq!(b.apply(Action::Edit(Edit::Delete)).as_deref(), Some("bcd\n"));
}

#[test]
fn non_edits_leave_text() {
    let mut b = FileBuffer::new("one\ntwo");
    assert_eq!(b.apply(Action::Scroll { lines: 1 }), None);
    assert_eq!(b.apply(Action::SelectWord), None);
    assert_eq!(b.apply(Action::SelectLine), None);
    assert_eq!(b.apply(Action::Select(Motion::Right)), None);
    assert_eq!(b.contents(), "one\ntwo\n");
}

#[test]
fn same_text_loads_the_same() {
    let a = FileBuffer::new("# T\nbody");
    let b = FileBuffer::new("# T\nbody");
    assert_eq!(a.contents(), b.contents());
    assert_eq!(format!("{:?}", a.md_items()), format!("{:?}", b.md_items()));
}
