use weblib::toast::{push_unique, remove_if_present, Toast, ToastVariant};

#[test]
fn toast_keeps_title_and_variant() {
    let t = Toast::new("Saved", ToastVariant::Info);
    assert_eq!(t.title(), "Saved");
    assert_eq!(t.variant(), ToastVariant::Info);
    assert_eq!(t.id(), t.id);
}

#[test]
fn toasts_draw_distinct_ids() {
    let a = Toast::new("a", ToastVariant::Info);
    let b = Toast::new("b", ToastVariant::Error);
    assert_ne!(a.id(), b.id());
}

#[test]
fn push_unique_refuses_a_used_id() {
    let mut list = Vec::new();
    assert!(push_unique(&mut list, Toast::with_id("a", ToastVariant::Info, 5)));
    assert!(!push_unique(&mut list, Toast::with_id("b", ToastVariant::Error, 5)));
    assert!(push_unique(&mut list, Toast::with_id("c", ToastVariant::Error, 6)));
    assert_eq!(list.len(), 2);
    assert_eq!(list[0].title(), "a");
    assert_eq!(list[1].title(), "c");
}

#[test]
fn remove_if_present_is_idempotent() {
    let mut list = Vec::new();
    push_unique(&mut list, Toast::with_id("a", ToastVariant::Info, 1));
    push_unique(&mut list, Toast::with_id("b", ToastVariant::Info, 2));
    push_unique(&mut list, Toast::with_id("c", ToastVariant::Info, 3));
    remove_if_present(&mut list, 2);
    let ids: Vec<u128> = list.iter().map(|t| t.id()).collect();
    assert_eq!(ids, vec![1, 3]);
    remove_if_present(&mut list, 2);
    let again: Vec<u128> = list.iter().map(|t| t.id()).collect();
    assert_eq!(again, vec![1, 3]);
}

#[test]
fn remove_from_empty_list() {
    let mut list: Vec<Toast> = Vec::new();
    remove_if_present(&mut list, 9);
    assert!(list.is_empty());
}
