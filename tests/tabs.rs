use weblib::tabs::{Tab, TabHistoryEntry, TabNavigation};

fn file(path: &str) -> TabNavigation {
    TabNavigation::File(path.to_string())
}

fn folder(path: &str) -> TabNavigation {
    TabNavigation::Folder(path.to_string())
}

#[test]
fn fresh_tab_shows_library() {
    let tab = Tab::default();
    assert_eq!(tab.entries(), &vec![TabHistoryEntry::Library]);
    assert_eq!(tab.active_entry_index(), 0);
    assert_eq!(tab.active_entry(), &TabHistoryEntry::Library);
}

#[test]
fn tab_with_id_keeps_id() {
    let tab = Tab::with_id(42);
    assert_eq!(tab.id(), 42);
    assert_eq!(tab.id, 42);
}

#[test]
fn navigate_to_file_starts_in_edit_mode() {
    let mut tab = Tab::with_id(1);
    tab.navigate(&file("/v/note.md"));
    assert_eq!(
        tab.active_entry(),
        &TabHistoryEntry::File { path: "/v/note.md".to_string(), preview: false }
    );
    assert_eq!(tab.active_entry_index(), 1);
}

#[test]
fn navigate_to_folder_carries_path() {
    let mut tab = Tab::with_id(1);
    tab.navigate(&folder("/v/notes"));
    assert_eq!(tab.active_entry(), &TabHistoryEntry::Folder { path: "/v/notes".to_string() });
}

#[test]
fn navigation_sequence_keeps_newest_active() {
    let mut tab = Tab::default();
    let requests = vec![file("/v/a.md"), folder("/v/b"), file("/v/b/c.md"), file("/v/a.md")];
    for request in &requests {
        tab.navigate(request);
        assert_eq!(tab.active_entry_index(), tab.entries().len() - 1);
        assert_eq!(tab.entries()[0], TabHistoryEntry::Library);
    }
    assert_eq!(tab.entries().len(), 5);
    assert_eq!(
        tab.entries()[4],
        TabHistoryEntry::File { path: "/v/a.md".to_string(), preview: false }
    );
}

#[test]
fn set_preview_on_file_entry() {
    let mut tab = Tab::with_id(7);
    tab.navigate(&file("/v/x.md"));
    tab.set_preview(true);
    assert_eq!(tab.active_entry(), &TabHistoryEntry::File { path: "/v/x.md".to_string(), preview: true });
    tab.set_preview(false);
    assert_eq!(tab.active_entry(), &TabHistoryEntry::File { path: "/v/x.md".to_string(), preview: false });
}

#[test]
fn set_preview_elsewhere_changes_nothing() {
    let mut tab = Tab::with_id(7);
    tab.set_preview(true);
    assert_eq!(tab.active_entry(), &TabHistoryEntry::Library);
    tab.navigate(&folder("/v/d"));
    tab.set_preview(true);
    assert_eq!(tab.active_entry(), &TabHistoryEntry::Folder { path: "/v/d".to_string() });
}

#[test]
fn active_entry_mut_changes_only_active() {
    let mut tab = Tab::with_id(3);
    tab.navigate(&file("/v/x.md"));
    *tab.active_entry_mut() = TabHistoryEntry::File { path: "/v/x.md".to_string(), preview: true };
    assert_eq!(tab.entries()[0], TabHistoryEntry::Library);
    assert_eq!(tab.entries()[1], TabHistoryEntry::File { path: "/v/x.md".to_string(), preview: true });
}

#[test]
fn default_tabs_draw_distinct_ids() {
    let a = Tab::default();
    let b = Tab::default();
    assert_ne!(a.id(), b.id());
}

#[test]
fn history_lists_every_request_in_order() {
    let mut tab = Tab::with_id(11);
    let requests = vec![folder("/v/a"), file("/v/a/x.md"), folder("/v/a")];
    for request in &requests {
        tab.navigate(request);
    }
    assert_eq!(
        tab.entries(),
        &vec![
            TabHistoryEntry::Library,
            TabHistoryEntry::Folder { path: "/v/a".to_string() },
            TabHistoryEntry::File { path: "/v/a/x.md".to_string(), preview: false },
            TabHistoryEntry::Folder { path: "/v/a".to_string() },
        ]
    );
    assert_eq!(tab.active_entry_index(), 3);
    assert_eq!(tab.id(), 11);
}
