//! The session: the chosen vault, its tabs, the shared buffer cache and the notifications,
//! changed by one intent at a time.

use vstd::prelude::*;

use iced::widget::text_editor::Action;

use crate::buffer::{Buffers, FileBuffer};
use crate::editor::{action_edits, loaded_text, markdown_of};
use crate::ids::random_id;
use crate::tabs::{with_preview, Tab, TabHistoryEntry, TabId, TabNavigation};
use crate::toast::{
    dismissed_from, has_toast, ids_unique, push_unique, remove_if_present, Toast, ToastVariant,
};

verus! {

/// What the session shows: the prompt for a vault, or the vault with its tabs.
pub enum Screen {
    VaultSelect,
    Main {
        vault_path: String,
        tabs: Vec<Tab>,
        active_tab_id: Option<TabId>,
        buffers: Buffers,
        failed_loads: Vec<String>,
    },
}

/// Why an intent was refused; the session is left as it was.
#[derive(Clone, Copy, Debug, PartialEq, Eq, Structural)]
pub enum SessionError {
    /// No vault has been chosen yet.
    NoVault,
    /// No tab has this identifier.
    UnknownTabId(TabId),
    /// A tab already has this identifier.
    TabIdInUse(TabId),
}

impl SessionError {
    /// A short text for the user.
    pub fn describe(&self) -> &'static str {
        match self {
            SessionError::NoVault => "No vault is selected",
            SessionError::UnknownTabId(_) => "No such tab",
            SessionError::TabIdInUse(_) => "Could not open a new tab",
        }
    }
}

/// Every buffer's blocks are up to date with its text.
pub open spec fn buffers_fresh(buffers: Map<Seq<char>, FileBuffer>) -> bool {
    forall|p: Seq<char>| buffers.contains_key(p) ==> #[trigger] buffers[p].wf()
}

/// Whether a tab with identifier `id` is in `tabs`.
pub open spec fn has_tab(tabs: Seq<Tab>, id: TabId) -> bool {
    exists|i: int| 0 <= i < tabs.len() && #[trigger] tabs[i].tab_id() == id
}

/// The position of the tab with identifier `id`.
pub open spec fn tab_index(tabs: Seq<Tab>, id: TabId) -> int {
    choose|i: int| 0 <= i < tabs.len() && #[trigger] tabs[i].tab_id() == id
}

/// Each tab is well rooted and no two share an identifier.
pub open spec fn tabs_ok(tabs: Seq<Tab>) -> bool {
    &&& forall|i: int| 0 <= i < tabs.len() ==> #[trigger] tabs[i].well_rooted()
    &&& forall|i: int, j: int|
        0 <= i < j < tabs.len() ==> #[trigger] tabs[i].tab_id() != #[trigger] tabs[j].tab_id()
}

/// The active tab, if any, is one of `tabs`.
pub open spec fn active_tab_present(tabs: Seq<Tab>, active: Option<TabId>) -> bool {
    active is Some ==> has_tab(tabs, active->0)
}

/// The file that a navigation request opens.
pub open spec fn file_target(navigation: TabNavigation) -> Option<String> {
    match navigation {
        TabNavigation::File(path) => Some(path),
        TabNavigation::Folder(_) => None,
    }
}

proof fn lemma_same_ids_keep_active(before: Seq<Tab>, after: Seq<Tab>, active: Option<TabId>)
    requires
        after.len() == before.len(),
        forall|i: int| 0 <= i < before.len() ==> #[trigger] after[i].tab_id() == before[i].tab_id(),
        active_tab_present(before, active),
    ensures
        active_tab_present(after, active),
{
    if active is Some {
        let j = choose|j: int| 0 <= j < before.len() && #[trigger] before[j].tab_id() == active->0;
        assert(after[j].tab_id() == active->0);
    }
}

/// The file that an entry lets the user edit: a file shown as text.
pub open spec fn edit_target(entry: TabHistoryEntry) -> Option<String> {
    match entry {
        TabHistoryEntry::File { path, preview } => if preview {
            None
        } else {
            Some(path)
        },
        _ => None,
    }
}

/// Whether `paths` holds `path`.
pub open spec fn path_listed(paths: Seq<String>, path: Seq<char>) -> bool {
    exists|i: int| 0 <= i < paths.len() && #[trigger] paths[i]@ == path
}

/// Whether `paths` holds `path`.
fn list_has_path(paths: &Vec<String>, path: &String) -> (r: bool)
    ensures
        r == path_listed(paths@, path@),
{
    let mut i: usize = 0;
    while i < paths.len()
        invariant
            i <= paths@.len(),
            forall|j: int| 0 <= j < i ==> #[trigger] paths@[j]@ != path@,
        decreases paths@.len() - i,
    {
        if paths[i] == *path {
            assert(paths@[i as int]@ == path@);
            return true;
        }
        i = i + 1;
    }
    false
}

/// The position of the tab with identifier `id`, if there is one.
fn find_tab(tabs: &Vec<Tab>, id: TabId) -> (r: Option<usize>)
    requires
        tabs_ok(tabs@),
    ensures
        r is Some ==> r->0 < tabs@.len() && tabs@[r->0 as int].tab_id() == id
            && r->0 == tab_index(tabs@, id),
        r is None ==> !has_tab(tabs@, id),
{
    let mut i: usize = 0;
    while i < tabs.len()
        invariant
            tabs_ok(tabs@),
            i <= tabs@.len(),
            forall|j: int| 0 <= j < i ==> #[trigger] tabs@[j].tab_id() != id,
        decreases tabs@.len() - i,
    {
        if tabs[i].id() == id {
            proof {
                let c = tab_index(tabs@, id);
                assert(has_tab(tabs@, id)) by {
                    assert(tabs@[i as int].tab_id() == id);
                }
                if c < i {
                    assert(tabs@[c].tab_id() != tabs@[i as int].tab_id());
                } else if c > i {
                    assert(tabs@[i as int].tab_id() != tabs@[c].tab_id());
                }
            }
            return Some(i);
        }
        i = i + 1;
    }
    None
}

/// An intent handed to the session: a user action, or the completion of deferred work.
pub enum Message {
    /// The folder picker closed, with the chosen folder or without one.
    FolderPicked(Option<String>),
    CreateLibraryTab,
    SelectTab(TabId),
    NavigateTab(TabId, TabNavigation),
    EditFile(TabId, Action),
    TogglePreview(TabId, bool),
    /// The fetch of a file finished with its content.
    FileContentFetched(String, String),
    /// The fetch of a file failed.
    FileFetchFailed(String),
    CreateToast(&'static str, ToastVariant),
    /// A notification's timer fired, or the user dismissed it.
    CloseToast(u128),
}

/// Work that the session asks of its surroundings after an intent.
pub enum Effect {
    /// Nothing to do.
    Nothing,
    /// Fetch the file's content and hand it back as `FileContentFetched`, or report
    /// `FileFetchFailed`.
    FetchFile(String),
    /// Write the text to the file.
    WriteFile(FileWrite),
    /// Hand back `CloseToast` with this identifier once the notification has expired.
    ExpireToast(u128),
    /// The intent was refused and the session left as it was; tell the user.
    Refused(SessionError),
}

/// What the pane shows for the active tab.
pub enum PaneView<'a> {
    NoActiveTab,
    /// The listing of the vault's root folder.
    Library(&'a String),
    /// The listing of a sub-folder.
    Folder(&'a String),
    /// A file, with its buffer once it is loaded, and whether its fetch failed.
    File { path: &'a String, preview: bool, buffer: Option<&'a FileBuffer>, failed: bool },
}

/// A write of a file's whole text, asked for by an edit.
pub struct FileWrite {
    pub path: String,
    pub text: String,
}

/// The session.
pub struct Session {
    pub screen: Screen,
    pub toasts: Vec<Toast>,
}

impl Session {
    pub open spec fn is_main(&self) -> bool {
        self.screen is Main
    }

    pub open spec fn vault_spec(&self) -> Seq<char> {
        match self.screen {
            Screen::Main { vault_path, .. } => vault_path@,
            Screen::VaultSelect => Seq::empty(),
        }
    }

    pub open spec fn tabs_spec(&self) -> Seq<Tab> {
        match self.screen {
            Screen::Main { tabs, .. } => tabs@,
            Screen::VaultSelect => Seq::empty(),
        }
    }

    pub open spec fn active_spec(&self) -> Option<TabId> {
        match self.screen {
            Screen::Main { active_tab_id, .. } => active_tab_id,
            Screen::VaultSelect => None,
        }
    }

    pub open spec fn buffers_spec(&self) -> Map<Seq<char>, FileBuffer> {
        match self.screen {
            Screen::Main { buffers, .. } => buffers@,
            Screen::VaultSelect => Map::empty(),
        }
    }

    pub open spec fn failed_spec(&self) -> Seq<String> {
        match self.screen {
            Screen::Main { failed_loads, .. } => failed_loads@,
            Screen::VaultSelect => Seq::empty(),
        }
    }

    /// The session's invariant: notification identifiers are unique and, with a vault,
    /// the tabs are well rooted with unique identifiers, the active tab is one of them,
    /// and the buffer cache is well formed with every buffer's blocks up to date.
    pub open spec fn wf(&self) -> bool {
        &&& ids_unique(self.toasts@)
        &&& match self.screen {
            Screen::VaultSelect => true,
            Screen::Main { tabs, active_tab_id, buffers, .. } => {
                &&& tabs_ok(tabs@)
                &&& active_tab_present(tabs@, active_tab_id)
                &&& buffers.wf()
                &&& buffers_fresh(buffers@)
            },
        }
    }

    /// A vault that was just opened: no tabs, no buffers.
    pub open spec fn is_fresh_vault(&self, vault_path: Seq<char>) -> bool {
        &&& self.is_main()
        &&& self.vault_spec() == vault_path
        &&& self.tabs_spec().len() == 0
        &&& self.active_spec() is None
        &&& self.buffers_spec() == Map::<Seq<char>, FileBuffer>::empty()
        &&& self.failed_spec().len() == 0
    }

    /// `self` and `old` agree on everything but the tabs and the active tab.
    pub open spec fn same_vault_and_cache(&self, old: Session) -> bool {
        &&& self.is_main() == old.is_main()
        &&& self.vault_spec() == old.vault_spec()
        &&& self.buffers_spec() == old.buffers_spec()
        &&& self.failed_spec() == old.failed_spec()
        &&& self.toasts@ == old.toasts@
    }

    /// `self` and `old` agree on everything but the tabs, the active tab and the list of
    /// failed loads.
    pub open spec fn same_vault_and_cache_but_failures(&self, old: Session) -> bool {
        &&& self.is_main() == old.is_main()
        &&& self.vault_spec() == old.vault_spec()
        &&& self.buffers_spec() == old.buffers_spec()
        &&& self.toasts@ == old.toasts@
    }

    /// A session that starts on `vault_path`, or at the prompt for one.
    pub fn new(vault_path: Option<String>) -> (r: Session)
        ensures
            r.wf(),
            r.toasts@.len() == 0,
            match vault_path {
                Some(p) => r.is_fresh_vault(p@),
                None => !r.is_main(),
            },
    {
        match vault_path {
            Some(p) => Session {
                screen: Screen::Main {
                    vault_path: p,
                    tabs: Vec::new(),
                    active_tab_id: None,
                    buffers: Buffers::new(),
                    failed_loads: Vec::new(),
                },
                toasts: Vec::new(),
            },
            None => Session { screen: Screen::VaultSelect, toasts: Vec::new() },
        }
    }

    /// Opens the chosen vault, with no tabs and no buffers.
    pub fn open_vault(&mut self, vault_path: String)
        requires
            old(self).wf(),
        ensures
            final(self).wf(),
            final(self).is_fresh_vault(vault_path@),
            final(self).toasts@ == old(self).toasts@,
    {
        self.screen = Screen::Main {
            vault_path,
            tabs: Vec::new(),
            active_tab_id: None,
            buffers: Buffers::new(),
            failed_loads: Vec::new(),
        };
    }

    /// Makes the tab `id` the active one.
    pub fn select_tab(&mut self, id: TabId) -> (r: Result<(), SessionError>)
        requires
            old(self).wf(),
        ensures
            final(self).wf(),
            !old(self).is_main() ==> r == Err::<(), SessionError>(SessionError::NoVault)
                && *final(self) == *old(self),
            old(self).is_main() && !has_tab(old(self).tabs_spec(), id) ==> r == Err::<(), SessionError>(
                SessionError::UnknownTabId(id),
            ) && *final(self) == *old(self),
            old(self).is_main() && has_tab(old(self).tabs_spec(), id) ==> r is Ok
                && final(self).active_spec() == Some(id)
                && final(self).tabs_spec() == old(self).tabs_spec()
                && final(self).same_vault_and_cache(*old(self)),
    {
        match &mut self.screen {
            Screen::VaultSelect => Err(SessionError::NoVault),
            Screen::Main { tabs, active_tab_id, .. } => {
                match find_tab(tabs, id) {
                    None => Err(SessionError::UnknownTabId(id)),
                    Some(_) => {
                        *active_tab_id = Some(id);
                        Ok(())
                    },
                }
            },
        }
    }

    /// Opens a fresh tab under identifier `id` and makes it active.
    pub fn create_tab_with_id(&mut self, id: TabId) -> (r: Result<(), SessionError>)
        requires
            old(self).wf(),
        ensures
            final(self).wf(),
            !old(self).is_main() ==> r == Err::<(), SessionError>(SessionError::NoVault)
                && *final(self) == *old(self),
            old(self).is_main() && has_tab(old(self).tabs_spec(), id) ==> r == Err::<(), SessionError>(
                SessionError::TabIdInUse(id),
            ) && *final(self) == *old(self),
            old(self).is_main() && !has_tab(old(self).tabs_spec(), id) ==> {
                &&& r is Ok
                &&& final(self).tabs_spec().len() == old(self).tabs_spec().len() + 1
                &&& final(self).tabs_spec().drop_last() == old(self).tabs_spec()
                &&& final(self).tabs_spec().last().tab_id() == id
                &&& final(self).tabs_spec().last().is_fresh()
                &&& final(self).active_spec() == Some(id)
                &&& final(self).same_vault_and_cache(*old(self))
            },
    {
        match &mut self.screen {
            Screen::VaultSelect => Err(SessionError::NoVault),
            Screen::Main { tabs, active_tab_id, .. } => {
                match find_tab(tabs, id) {
                    Some(_) => Err(SessionError::TabIdInUse(id)),
                    None => {
                        let ghost before = tabs@;
                        tabs.push(Tab::with_id(id));
                        *active_tab_id = Some(id);
                        proof {
                            let n = tabs@.len();
                            assert(tabs@.drop_last() =~= before);
                            assert(tabs@[n - 1].tab_id() == id);
                            assert forall|i: int, j: int| 0 <= i < j < n implies
                                #[trigger] tabs@[i].tab_id() != #[trigger] tabs@[j].tab_id() by {
                                if j == n - 1 {
                                    assert(before[i].tab_id() != id);
                                } else {
                                    assert(before[i].tab_id() != before[j].tab_id());
                                }
                            }
                            assert(tabs@[n - 1].well_rooted());
                            assert(has_tab(tabs@, id));
                        }
                        Ok(())
                    },
                }
            },
        }
    }

    /// Opens a fresh tab under a newly drawn identifier and makes it active; the
    /// identifier is returned.
    pub fn create_tab(&mut self) -> (r: Result<TabId, SessionError>)
        requires
            old(self).wf(),
        ensures
            final(self).wf(),
            !old(self).is_main() ==> r == Err::<TabId, SessionError>(SessionError::NoVault)
                && *final(self) == *old(self),
            r is Err ==> *final(self) == *old(self),
            old(self).is_main() ==> r is Ok || (r matches Err(SessionError::TabIdInUse(x))
                && has_tab(old(self).tabs_spec(), x)),
            r is Ok ==> {
                &&& !has_tab(old(self).tabs_spec(), r->Ok_0)
                &&& final(self).tabs_spec().drop_last() == old(self).tabs_spec()
                &&& final(self).tabs_spec().last().tab_id() == r->Ok_0
                &&& final(self).tabs_spec().last().is_fresh()
                &&& final(self).active_spec() == Some(r->Ok_0)
                &&& final(self).same_vault_and_cache(*old(self))
            },
    {
        let id = random_id();
        match self.create_tab_with_id(id) {
            Ok(()) => Ok(id),
            Err(e) => Err(e),
        }
    }
    /// Navigates the tab `tab_id` and, where the request opens a file that has no buffer
    /// yet, returns that file's path: its content is to be fetched and handed back to
    /// `on_load_complete`.
    pub fn navigate(&mut self, tab_id: TabId, navigation: &TabNavigation) -> (r: Result<
        Option<String>,
        SessionError,
    >)
        requires
            old(self).wf(),
        ensures
            final(self).wf(),
            !old(self).is_main() ==> r == Err::<Option<String>, SessionError>(SessionError::NoVault)
                && *final(self) == *old(self),
            old(self).is_main() && !has_tab(old(self).tabs_spec(), tab_id) ==> r == Err::<
                Option<String>,
                SessionError,
            >(SessionError::UnknownTabId(tab_id)) && *final(self) == *old(self),
            old(self).is_main() && has_tab(old(self).tabs_spec(), tab_id) ==> {
                let k = tab_index(old(self).tabs_spec(), tab_id);
                &&& final(self).tabs_spec() == old(self).tabs_spec().update(k, final(self).tabs_spec()[k])
                &&& final(self).tabs_spec()[k].navigated_from(old(self).tabs_spec()[k], *navigation)
                &&& final(self).active_spec() == old(self).active_spec()
                &&& final(self).same_vault_and_cache(*old(self))
                &&& r == Ok::<Option<String>, SessionError>(
                    match file_target(*navigation) {
                        Some(p) => if old(self).buffers_spec().contains_key(p@) {
                            None
                        } else {
                            Some(p)
                        },
                        None => None,
                    },
                )
            },
    {
        match &mut self.screen {
            Screen::VaultSelect => Err(SessionError::NoVault),
            Screen::Main { tabs, buffers, active_tab_id, .. } => {
                match find_tab(tabs, tab_id) {
                    None => Err(SessionError::UnknownTabId(tab_id)),
                    Some(k) => {
                        let ghost before = tabs@;
                        assert(before[k as int].well_rooted());
                        tabs[k].navigate(navigation);
                        proof {
                            assert forall|i: int| 0 <= i < tabs@.len() && i != k implies
                                #[trigger] tabs@[i] == before[i] by {}
                            assert(tabs@[k as int].well_rooted());
                            assert forall|i: int, j: int| 0 <= i < j < tabs@.len() implies
                                #[trigger] tabs@[i].tab_id() != #[trigger] tabs@[j].tab_id() by {
                                assert(before[i].tab_id() != before[j].tab_id());
                            }
                            assert(tabs@ =~= before.update(k as int, tabs@[k as int]));
                            lemma_same_ids_keep_active(before, tabs@, *active_tab_id);
                        }
                        match navigation {
                            TabNavigation::File(path) => {
                                if buffers.contains_key(path) {
                                    Ok(None)
                                } else {
                                    Ok(Some(path.clone()))
                                }
                            },
                            TabNavigation::Folder(_) => Ok(None),
                        }
                    },
                }
            },
        }
    }

    /// Sets the preview flag of the active entry of tab `tab_id` where that entry is a
    /// file; otherwise the tab stays as it is.
    pub fn set_preview(&mut self, tab_id: TabId, value: bool) -> (r: Result<(), SessionError>)
        requires
            old(self).wf(),
        ensures
            final(self).wf(),
            !old(self).is_main() ==> r == Err::<(), SessionError>(SessionError::NoVault)
                && *final(self) == *old(self),
            old(self).is_main() && !has_tab(old(self).tabs_spec(), tab_id) ==> r == Err::<(), SessionError>(
                SessionError::UnknownTabId(tab_id),
            ) && *final(self) == *old(self),
            old(self).is_main() && has_tab(old(self).tabs_spec(), tab_id) ==> {
                let k = tab_index(old(self).tabs_spec(), tab_id);
                let t = old(self).tabs_spec()[k];
                &&& r is Ok
                &&& final(self).tabs_spec() == old(self).tabs_spec().update(k, final(self).tabs_spec()[k])
                &&& final(self).tabs_spec()[k].tab_id() == tab_id
                &&& final(self).tabs_spec()[k].active_index() == t.active_index()
                &&& final(self).tabs_spec()[k].history() == t.history().update(
                    t.active_index(),
                    with_preview(t.active_entry_spec(), value),
                )
                &&& final(self).active_spec() == old(self).active_spec()
                &&& final(self).same_vault_and_cache(*old(self))
            },
    {
        match &mut self.screen {
            Screen::VaultSelect => Err(SessionError::NoVault),
            Screen::Main { tabs, active_tab_id, .. } => {
                match find_tab(tabs, tab_id) {
                    None => Err(SessionError::UnknownTabId(tab_id)),
                    Some(k) => {
                        let ghost before = tabs@;
                        assert(before[k as int].well_rooted());
                        tabs[k].set_preview(value);
                        proof {
                            let t = before[k as int];
                            assert forall|i: int| 0 <= i < tabs@.len() && i != k implies
                                #[trigger] tabs@[i] == before[i] by {}
                            assert(tabs@[k as int].history()[0] == TabHistoryEntry::Library) by {
                                if t.active_index() == 0 {
                                    assert(t.active_entry_spec() == TabHistoryEntry::Library);
                                }
                            }
                            assert(tabs@[k as int].well_rooted());
                            assert forall|i: int, j: int| 0 <= i < j < tabs@.len() implies
                                #[trigger] tabs@[i].tab_id() != #[trigger] tabs@[j].tab_id() by {
                                assert(before[i].tab_id() != before[j].tab_id());
                            }
                            assert(tabs@ =~= before.update(k as int, tabs@[k as int]));
                            lemma_same_ids_keep_active(before, tabs@, *active_tab_id);
                        }
                        Ok(())
                    },
                }
            },
        }
    }
    /// Applies an editor action to the file that tab `tab_id` shows in edit mode. Where
    /// the action edits that file's loaded buffer, the blocks are parsed again and the
    /// write of its whole text is returned; in every other case the session's buffers
    /// keep their blocks.
    pub fn edit(&mut self, tab_id: TabId, action: Action) -> (r: Result<Option<FileWrite>, SessionError>)
        requires
            old(self).wf(),
        ensures
            final(self).wf(),
            !old(self).is_main() ==> r is Err && r->Err_0 == SessionError::NoVault
                && *final(self) == *old(self),
            old(self).is_main() && !has_tab(old(self).tabs_spec(), tab_id) ==> r is Err
                && r->Err_0 == SessionError::UnknownTabId(tab_id) && *final(self) == *old(self),
            old(self).is_main() && has_tab(old(self).tabs_spec(), tab_id) ==> {
                let t = old(self).tabs_spec()[tab_index(old(self).tabs_spec(), tab_id)];
                let target = edit_target(t.active_entry_spec());
                &&& r is Ok
                &&& final(self).tabs_spec() == old(self).tabs_spec()
                &&& final(self).active_spec() == old(self).active_spec()
                &&& final(self).vault_spec() == old(self).vault_spec()
                &&& final(self).failed_spec() == old(self).failed_spec()
                &&& final(self).toasts@ == old(self).toasts@
                &&& final(self).is_main()
                &&& !(target is Some && old(self).buffers_spec().contains_key(target->0@)) ==> {
                    &&& r->Ok_0 is None
                    &&& final(self).buffers_spec() == old(self).buffers_spec()
                }
                &&& target is Some && old(self).buffers_spec().contains_key(target->0@) ==> {
                    let p = target->0@;
                    let b = final(self).buffers_spec()[p];
                    &&& final(self).buffers_spec() == old(self).buffers_spec().insert(p, b)
                    &&& r->Ok_0 is Some <==> action_edits(action)
                    &&& r->Ok_0 is Some ==> r->Ok_0->0.path@ == p && r->Ok_0->0.text@ == b.text()
                        && b.render_items() == markdown_of(b.text())
                    &&& r->Ok_0 is None ==> b.text() == old(self).buffers_spec()[p].text()
                        && b.render_items() == old(self).buffers_spec()[p].render_items()
                }
            },
    {
        match &mut self.screen {
            Screen::VaultSelect => Err(SessionError::NoVault),
            Screen::Main { tabs, buffers, .. } => {
                match find_tab(tabs, tab_id) {
                    None => Err(SessionError::UnknownTabId(tab_id)),
                    Some(k) => {
                        assert(tabs@[k as int].well_rooted());
                        let target: Option<String> = match tabs[k].active_entry() {
                            TabHistoryEntry::File { path, preview } => if *preview {
                                None
                            } else {
                                Some(path.clone())
                            },
                            _ => None,
                        };
                        match target {
                            None => Ok(None),
                            Some(path) => {
                                match buffers.apply_edit(&path, action) {
                                    Some(text) => Ok(Some(FileWrite { path, text })),
                                    None => Ok(None),
                                }
                            },
                        }
                    },
                }
            },
        }
    }

    /// Installs the fetched content of `path` as its buffer, in place of any earlier one.
    pub fn on_load_complete(&mut self, path: String, content: &str) -> (r: Result<(), SessionError>)
        requires
            old(self).wf(),
        ensures
            final(self).wf(),
            !old(self).is_main() ==> r == Err::<(), SessionError>(SessionError::NoVault)
                && *final(self) == *old(self),
            old(self).is_main() ==> {
                let b = final(self).buffers_spec()[path@];
                &&& r is Ok
                &&& final(self).is_main()
                &&& final(self).buffers_spec().contains_key(path@)
                &&& final(self).buffers_spec() == old(self).buffers_spec().insert(path@, b)
                &&& b.render_items() == markdown_of(content@)
                &&& b.text() == loaded_text(content@)
                &&& b.source() == content@
                &&& final(self).tabs_spec() == old(self).tabs_spec()
                &&& final(self).active_spec() == old(self).active_spec()
                &&& final(self).vault_spec() == old(self).vault_spec()
                &&& final(self).failed_spec() == old(self).failed_spec()
                &&& final(self).toasts@ == old(self).toasts@
            },
    {
        match &mut self.screen {
            Screen::VaultSelect => Err(SessionError::NoVault),
            Screen::Main { buffers, .. } => {
                buffers.insert(path, FileBuffer::new(content));
                Ok(())
            },
        }
    }

    /// Records that fetching `path` failed, so that its entry shows the failure rather
    /// than waiting.
    pub fn on_load_failed(&mut self, path: String) -> (r: Result<(), SessionError>)
        requires
            old(self).wf(),
        ensures
            final(self).wf(),
            !old(self).is_main() ==> r == Err::<(), SessionError>(SessionError::NoVault)
                && *final(self) == *old(self),
            old(self).is_main() ==> {
                &&& r is Ok
                &&& final(self).is_main()
                &&& final(self).failed_spec() == if path_listed(old(self).failed_spec(), path@) {
                    old(self).failed_spec()
                } else {
                    old(self).failed_spec().push(path)
                }
                &&& path_listed(final(self).failed_spec(), path@)
                &&& final(self).tabs_spec() == old(self).tabs_spec()
                &&& final(self).active_spec() == old(self).active_spec()
                &&& final(self).same_vault_and_cache_but_failures(*old(self))
            },
    {
        match &mut self.screen {
            Screen::VaultSelect => Err(SessionError::NoVault),
            Screen::Main { failed_loads, .. } => {
                if !list_has_path(failed_loads, &path) {
                    failed_loads.push(path);
                    assert(failed_loads@[failed_loads@.len() - 1]@ == path@);
                }
                Ok(())
            },
        }
    }

    /// Appends `toast` unless its identifier is in use; says whether it did.
    pub fn push_toast(&mut self, toast: Toast) -> (r: bool)
        requires
            old(self).wf(),
        ensures
            final(self).wf(),
            final(self).screen == old(self).screen,
            r == !has_toast(old(self).toasts@, toast.toast_id()),
            r ==> final(self).toasts@ == old(self).toasts@.push(toast),
            !r ==> final(self).toasts@ == old(self).toasts@,
    {
        push_unique(&mut self.toasts, toast)
    }

    /// Adds a notification under a newly drawn identifier and returns that identifier, to
    /// start its expiry timer; `None` where the drawn identifier was already in use.
    pub fn create_toast(&mut self, title: &'static str, variant: ToastVariant) -> (r: Option<u128>)
        requires
            old(self).wf(),
        ensures
            final(self).wf(),
            final(self).screen == old(self).screen,
            r is Some ==> {
                let t = final(self).toasts@.last();
                &&& final(self).toasts@ == old(self).toasts@.push(t)
                &&& t.toast_id() == r->0
                &&& t.title_spec() == title@
                &&& t.variant_spec() == variant
            },
            r is None ==> final(self).toasts@ == old(self).toasts@ && old(self).toasts@.len() > 0,
    {
        let toast = Toast::new(title, variant);
        let id = toast.id();
        if self.push_toast(toast) {
            Some(id)
        } else {
            None
        }
    }

    /// Removes the notification `id` when its timer fires or it is dismissed; nothing
    /// happens where it is already gone.
    pub fn close_toast(&mut self, id: u128)
        requires
            old(self).wf(),
        ensures
            final(self).wf(),
            final(self).screen == old(self).screen,
            dismissed_from(final(self).toasts@, old(self).toasts@, id),
    {
        remove_if_present(&mut self.toasts, id)
    }
    /// What the pane shows: `None` at the prompt for a vault, otherwise the active tab's
    /// active entry with, for a file, its buffer or whether its fetch failed.
    pub fn pane(&self) -> (r: Option<PaneView<'_>>)
        requires
            self.wf(),
        ensures
            !self.is_main() ==> r is None,
            self.is_main() && self.active_spec() is None ==> r matches Some(PaneView::NoActiveTab),
            self.is_main() && self.active_spec() is Some ==> {
                let t = self.tabs_spec()[tab_index(self.tabs_spec(), self.active_spec()->0)];
                match t.active_entry_spec() {
                    TabHistoryEntry::Library => r matches Some(PaneView::Library(v)) && v@ == self.vault_spec(),
                    TabHistoryEntry::Folder { path } => r matches Some(PaneView::Folder(p)) && *p == path,
                    TabHistoryEntry::File { path, preview } => r matches Some(
                        PaneView::File { path: p, preview: v, buffer, failed },
                    ) && *p == path && v == preview
                        && failed == path_listed(self.failed_spec(), path@)
                        && (buffer is Some <==> self.buffers_spec().contains_key(path@))
                        && (buffer is Some ==> *buffer->0 == self.buffers_spec()[path@]),
                }
            },
    {
        match &self.screen {
            Screen::VaultSelect => None,
            Screen::Main { vault_path, tabs, active_tab_id, buffers, failed_loads } => {
                match active_tab_id {
                    None => Some(PaneView::NoActiveTab),
                    Some(id) => {
                        match find_tab(tabs, *id) {
                            None => Some(PaneView::NoActiveTab),
                            Some(k) => {
                                assert(tabs@[k as int].well_rooted());
                                match tabs[k].active_entry() {
                                    TabHistoryEntry::Library => Some(PaneView::Library(vault_path)),
                                    TabHistoryEntry::Folder { path } => Some(PaneView::Folder(path)),
                                    TabHistoryEntry::File { path, preview } => Some(
                                        PaneView::File {
                                            path,
                                            preview: *preview,
                                            buffer: buffers.get(path),
                                            failed: list_has_path(failed_loads, path),
                                        },
                                    ),
                                }
                            },
                        }
                    },
                }
            },
        }
    }

    /// Applies one intent and returns the work it asks for.
    pub fn update(&mut self, message: Message) -> (r: Effect)
        requires
            old(self).wf(),
        ensures
            final(self).wf(),
            r is Refused ==> *final(self) == *old(self),
            message matches Message::FolderPicked(picked) ==> r is Nothing && (picked is None ==> *final(self)
                    == *old(self)) && (picked is Some ==> final(self).is_fresh_vault(picked->0@)
                    && final(self).toasts@ == old(self).toasts@),
            message matches Message::CreateLibraryTab ==> {
                &&& !old(self).is_main() ==> r == Effect::Refused(SessionError::NoVault)
                &&& old(self).is_main() ==> r is Nothing || (r matches Effect::Refused(
                    SessionError::TabIdInUse(x),
                ) && has_tab(old(self).tabs_spec(), x))
                &&& r is Refused || r is Nothing
                &&& r is Nothing ==> {
                    &&& final(self).tabs_spec().drop_last() == old(self).tabs_spec()
                    &&& final(self).tabs_spec().len() == old(self).tabs_spec().len() + 1
                    &&& final(self).tabs_spec().last().is_fresh()
                    &&& final(self).active_spec() == Some(final(self).tabs_spec().last().tab_id())
                    &&& final(self).same_vault_and_cache(*old(self))
                }
            },
            message matches Message::SelectTab(id) ==> {
                &&& r is Refused <==> !(old(self).is_main() && has_tab(old(self).tabs_spec(), id))
                &&& !(r is Refused) ==> {
                    &&& r is Nothing
                    &&& final(self).active_spec() == Some(id)
                    &&& final(self).tabs_spec() == old(self).tabs_spec()
                    &&& final(self).same_vault_and_cache(*old(self))
                }
            },
            message matches Message::NavigateTab(id, navigation) ==> {
                let k = tab_index(old(self).tabs_spec(), id);
                &&& r is Refused <==> !(old(self).is_main() && has_tab(old(self).tabs_spec(), id))
                &&& !(r is Refused) ==> {
                    &&& final(self).tabs_spec() == old(self).tabs_spec().update(k, final(self).tabs_spec()[k])
                    &&& final(self).tabs_spec()[k].navigated_from(old(self).tabs_spec()[k], navigation)
                    &&& final(self).active_spec() == old(self).active_spec()
                    &&& final(self).same_vault_and_cache(*old(self))
                    &&& (r is FetchFile <==> (file_target(navigation) is Some
                        && !old(self).buffers_spec().contains_key(file_target(navigation)->0@)))
                    &&& r is FetchFile ==> file_target(navigation) == Some(r->FetchFile_0)
                    &&& (r is Nothing || r is FetchFile)
                }
            },
            message matches Message::EditFile(id, action) ==> {
                let t = old(self).tabs_spec()[tab_index(old(self).tabs_spec(), id)];
                let target = edit_target(t.active_entry_spec());
                &&& r is Refused <==> !(old(self).is_main() && has_tab(old(self).tabs_spec(), id))
                &&& !(r is Refused) ==> {
                    &&& r is Nothing || r is WriteFile
                    &&& final(self).tabs_spec() == old(self).tabs_spec()
                    &&& final(self).active_spec() == old(self).active_spec()
                    &&& final(self).vault_spec() == old(self).vault_spec()
                    &&& final(self).toasts@ == old(self).toasts@
                    &&& !(target is Some && old(self).buffers_spec().contains_key(target->0@)) ==> r is Nothing
                        && final(self).buffers_spec() == old(self).buffers_spec()
                    &&& target is Some && old(self).buffers_spec().contains_key(target->0@) ==> {
                        let p = target->0@;
                        let b = final(self).buffers_spec()[p];
                        &&& final(self).buffers_spec() == old(self).buffers_spec().insert(p, b)
                        &&& r is WriteFile <==> action_edits(action)
                        &&& r is WriteFile ==> r->WriteFile_0.path@ == p
                        &&& r is Nothing ==> b.text() == old(self).buffers_spec()[p].text()
                            && b.render_items() == old(self).buffers_spec()[p].render_items()
                    }
                }
                &&& r is WriteFile ==> {
                    let w = r->WriteFile_0;
                    &&& final(self).buffers_spec().contains_key(w.path@)
                    &&& w.text@ == final(self).buffers_spec()[w.path@].text()
                    &&& final(self).buffers_spec()[w.path@].render_items() == markdown_of(w.text@)
                }
            },
            message matches Message::TogglePreview(id, value) ==> {
                let k = tab_index(old(self).tabs_spec(), id);
                let t = old(self).tabs_spec()[k];
                &&& r is Refused <==> !(old(self).is_main() && has_tab(old(self).tabs_spec(), id))
                &&& !(r is Refused) ==> {
                    &&& r is Nothing
                    &&& final(self).tabs_spec() == old(self).tabs_spec().update(k, final(self).tabs_spec()[k])
                    &&& final(self).tabs_spec()[k].history() == t.history().update(
                        t.active_index(),
                        with_preview(t.active_entry_spec(), value),
                    )
                    &&& final(self).active_spec() == old(self).active_spec()
                    &&& final(self).same_vault_and_cache(*old(self))
                }
            },
            message matches Message::FileContentFetched(path, content) ==> {
                &&& !old(self).is_main() ==> r == Effect::Refused(SessionError::NoVault)
                &&& old(self).is_main() ==> r is Nothing
                &&& r is Nothing ==> {
                    let b = final(self).buffers_spec()[path@];
                    &&& final(self).buffers_spec() == old(self).buffers_spec().insert(path@, b)
                    &&& b.render_items() == markdown_of(content@)
                    &&& b.text() == loaded_text(content@)
                    &&& final(self).tabs_spec() == old(self).tabs_spec()
                    &&& final(self).active_spec() == old(self).active_spec()
                }
            },
            message matches Message::FileFetchFailed(path) ==> {
                &&& !old(self).is_main() ==> r == Effect::Refused(SessionError::NoVault)
                &&& old(self).is_main() ==> r is Nothing
                &&& r is Nothing ==> path_listed(final(self).failed_spec(), path@)
                    && final(self).tabs_spec() == old(self).tabs_spec()
                    && final(self).active_spec() == old(self).active_spec()
                    && final(self).same_vault_and_cache_but_failures(*old(self))
            },
            message matches Message::CreateToast(title, variant) ==> final(self).screen == old(self).screen
                    && (r is ExpireToast ==> final(self).toasts@ == old(self).toasts@.push(final(self).toasts@.last())
                        && final(self).toasts@.last().toast_id() == r->ExpireToast_0
                        && final(self).toasts@.last().title_spec() == title@
                        && final(self).toasts@.last().variant_spec() == variant)
                    && (!(r is ExpireToast) ==> r is Nothing && final(self).toasts@ == old(self).toasts@
                        && old(self).toasts@.len() > 0),
            message matches Message::CloseToast(id) ==> r is Nothing && final(self).screen == old(self).screen
                    && dismissed_from(final(self).toasts@, old(self).toasts@, id),
    {
        match message {
            Message::FolderPicked(Some(path)) => {
                self.open_vault(path);
                Effect::Nothing
            },
            Message::FolderPicked(None) => Effect::Nothing,
            Message::CreateLibraryTab => match self.create_tab() {
                Ok(_) => Effect::Nothing,
                Err(e) => Effect::Refused(e),
            },
            Message::SelectTab(id) => match self.select_tab(id) {
                Ok(()) => Effect::Nothing,
                Err(e) => Effect::Refused(e),
            },
            Message::NavigateTab(id, navigation) => match self.navigate(id, &navigation) {
                Ok(Some(path)) => Effect::FetchFile(path),
                Ok(None) => Effect::Nothing,
                Err(e) => Effect::Refused(e),
            },
            Message::EditFile(id, action) => match self.edit(id, action) {
                Ok(Some(write)) => Effect::WriteFile(write),
                Ok(None) => Effect::Nothing,
                Err(e) => Effect::Refused(e),
            },
            Message::TogglePreview(id, value) => match self.set_preview(id, value) {
                Ok(()) => Effect::Nothing,
                Err(e) => Effect::Refused(e),
            },
            Message::FileContentFetched(path, content) => match self.on_load_complete(path, content.as_str()) {
                Ok(()) => Effect::Nothing,
                Err(e) => Effect::Refused(e),
            },
            Message::FileFetchFailed(path) => match self.on_load_failed(path) {
                Ok(()) => Effect::Nothing,
                Err(e) => Effect::Refused(e),
            },
            Message::CreateToast(title, variant) => match self.create_toast(title, variant) {
                Some(id) => Effect::ExpireToast(id),
                None => Effect::Nothing,
            },
            Message::CloseToast(id) => {
                self.close_toast(id);
                Effect::Nothing
            },
        }
    }
}

/// Every operation keeps the session's invariant, so in any session reached from
/// `Session::new` by any sequence of them, including tab creation and selection, the
/// active tab is either absent or one of the session's tabs.
pub proof fn lemma_active_tab_present(session: Session)
    requires
        session.wf(),
    ensures
        session.active_spec() is None || has_tab(session.tabs_spec(), session.active_spec()->0),
{
}

} // verus!
