//! A tab: an append-only history of visited locations with one active position.

use vstd::prelude::*;

use crate::ids::random_id;

verus! {

/// Identifier of a tab, stable for the tab's lifetime.
pub type TabId = u128;

/// One visited location in a tab.
#[derive(Debug, Clone, PartialEq, Eq)]
pub enum TabHistoryEntry {
    /// The listing of the vault's root folder.
    Library,
    /// A file, shown as editable text or, with `preview`, as rendered markdown.
    File { path: String, preview: bool },
    /// The listing of a sub-folder.
    Folder { path: String },
}

/// A request to move a tab to a new location.
#[derive(Debug, Clone, PartialEq, Eq)]
pub enum TabNavigation {
    File(String),
    Folder(String),
}

/// The entry that a navigation request appends: files open in edit mode.
pub open spec fn entry_for(navigation: TabNavigation) -> TabHistoryEntry {
    match navigation {
        TabNavigation::File(path) => TabHistoryEntry::File { path, preview: false },
        TabNavigation::Folder(path) => TabHistoryEntry::Folder { path },
    }
}

/// `entry` shown in preview mode or not, where it is a file.
pub open spec fn with_preview(entry: TabHistoryEntry, value: bool) -> TabHistoryEntry {
    match entry {
        TabHistoryEntry::File { path, .. } => TabHistoryEntry::File { path, preview: value },
        _ => entry,
    }
}

pub struct Tab {
    pub id: TabId,
    history: Vec<TabHistoryEntry>,
    active_entry_index: usize,
}

impl Tab {
    /// The tab's identifier.
    pub closed spec fn tab_id(&self) -> TabId {
        self.id
    }

    /// The visited locations, oldest first.
    pub closed spec fn history(&self) -> Seq<TabHistoryEntry> {
        self.history@
    }

    /// The position of the active location in `history()`.
    pub closed spec fn active_index(&self) -> int {
        self.active_entry_index as int
    }

    /// The history is never empty and its active position lies within it.
    pub open spec fn wf(&self) -> bool {
        &&& self.history().len() > 0
        &&& 0 <= self.active_index() < self.history().len()
    }

    /// A tab as it is created: only the library listing, which is active.
    pub open spec fn is_fresh(&self) -> bool {
        &&& self.history() == seq![TabHistoryEntry::Library]
        &&& self.active_index() == 0
    }

    pub open spec fn active_entry_spec(&self) -> TabHistoryEntry {
        self.history()[self.active_index()]
    }

    /// Well formed, with the library listing first and the newest entry active.
    pub open spec fn well_rooted(&self) -> bool {
        &&& self.wf()
        &&& self.active_index() == self.history().len() - 1
        &&& self.history()[0] == TabHistoryEntry::Library
    }

    /// `self` is `old` after `navigation`: the new entry is appended and becomes active.
    pub open spec fn navigated_from(&self, old: Tab, navigation: TabNavigation) -> bool {
        &&& self.tab_id() == old.tab_id()
        &&& self.history() == old.history().push(entry_for(navigation))
        &&& self.active_index() == old.history().len()
    }

    /// A fresh tab under the given identifier.
    pub fn with_id(id: TabId) -> (r: Tab)
        ensures
            r.tab_id() == id,
            r.is_fresh(),
            r.wf(),
    {
        let r = Tab { id, history: vec![TabHistoryEntry::Library], active_entry_index: 0 };
        assert(r.history() =~= seq![TabHistoryEntry::Library]);
        r
    }

    /// Appends the entry for `navigation` and makes it the active one.
    pub fn navigate(&mut self, navigation: &TabNavigation)
        requires
            old(self).wf(),
        ensures
            final(self).wf(),
            final(self).navigated_from(*old(self), *navigation),
    {
        let new_entry = match navigation {
            TabNavigation::File(path) => TabHistoryEntry::File { path: path.clone(), preview: false },
            TabNavigation::Folder(path) => TabHistoryEntry::Folder { path: path.clone() },
        };
        self.history.push(new_entry);
        self.active_entry_index = self.history.len() - 1;
    }

    /// The tab's identifier.
    pub fn id(&self) -> (r: TabId)
        ensures
            r == self.tab_id(),
    {
        self.id
    }

    /// The visited locations, oldest first.
    pub fn entries(&self) -> (r: &Vec<TabHistoryEntry>)
        ensures
            r@ == self.history(),
    {
        &self.history
    }

    /// The position of the active location.
    pub fn active_entry_index(&self) -> (r: usize)
        ensures
            r == self.active_index(),
    {
        self.active_entry_index
    }

    /// The active location.
    pub fn active_entry(&self) -> (r: &TabHistoryEntry)
        requires
            self.wf(),
        ensures
            *r == self.active_entry_spec(),
    {
        &self.history[self.active_entry_index]
    }

    /// The active location, for changing it in place; the rest of the tab stays as it is.
    pub fn active_entry_mut(&mut self) -> (r: &mut TabHistoryEntry)
        requires
            old(self).wf(),
        ensures
            *r == old(self).active_entry_spec(),
            final(self).tab_id() == old(self).tab_id(),
            final(self).active_index() == old(self).active_index(),
            final(self).history() == old(self).history().update(old(self).active_index(), *final(r)),
    {
        &mut self.history[self.active_entry_index]
    }

    /// Sets the preview flag of the active entry where it is a file; otherwise nothing
    /// changes.
    pub fn set_preview(&mut self, value: bool)
        requires
            old(self).wf(),
        ensures
            final(self).wf(),
            final(self).tab_id() == old(self).tab_id(),
            final(self).active_index() == old(self).active_index(),
            final(self).history() == old(self).history().update(
                old(self).active_index(),
                with_preview(old(self).active_entry_spec(), value),
            ),
    {
        let entry = self.active_entry_mut();
        if let TabHistoryEntry::File { preview, .. } = entry {
            *preview = value;
        }
    }
}

impl Default for Tab {
    /// A fresh tab under a newly drawn identifier.
    fn default() -> (r: Tab)
        ensures
            r.is_fresh(),
            r.wf(),
    {
        Tab::with_id(random_id())
    }
}

/// The history of a fresh tab after the navigation requests `navigations`, in order.
pub open spec fn history_after(navigations: Seq<TabNavigation>) -> Seq<TabHistoryEntry> {
    seq![TabHistoryEntry::Library] + navigations.map_values(|n: TabNavigation| entry_for(n))
}

/// Starting from a fresh tab and applying navigation requests one after another, every
/// tab along the way keeps its identifier, holds the library listing followed by the
/// entries of the requests so far, in order, and has its newest entry active.
pub proof fn lemma_navigation_keeps_tip(tabs: Seq<Tab>, navigations: Seq<TabNavigation>)
    requires
        tabs.len() == navigations.len() + 1,
        tabs[0].is_fresh(),
        forall|i: int|
            #![trigger navigations[i]]
            0 <= i < navigations.len() ==> tabs[i + 1].navigated_from(tabs[i], navigations[i]),
    ensures
        forall|i: int|
            #![trigger tabs[i]]
            0 <= i < tabs.len() ==> {
                &&& tabs[i].well_rooted()
                &&& tabs[i].tab_id() == tabs[0].tab_id()
                &&& tabs[i].history() == history_after(navigations.take(i))
                &&& tabs[i].active_index() == i
            },
{
    assert forall|i: int| #![trigger tabs[i]] 0 <= i < tabs.len() implies {
        &&& tabs[i].well_rooted()
        &&& tabs[i].tab_id() == tabs[0].tab_id()
        &&& tabs[i].history() == history_after(navigations.take(i))
        &&& tabs[i].active_index() == i
    } by {
        lemma_tip_after(tabs, navigations, i);
    }
}

proof fn lemma_tip_after(tabs: Seq<Tab>, navigations: Seq<TabNavigation>, i: int)
    requires
        tabs.len() == navigations.len() + 1,
        tabs[0].is_fresh(),
        forall|j: int|
            #![trigger navigations[j]]
            0 <= j < navigations.len() ==> tabs[j + 1].navigated_from(tabs[j], navigations[j]),
        0 <= i < tabs.len(),
    ensures
        tabs[i].well_rooted(),
        tabs[i].tab_id() == tabs[0].tab_id(),
        tabs[i].history() == history_after(navigations.take(i)),
        tabs[i].active_index() == i,
    decreases i,
{
    if i == 0 {
        assert(history_after(navigations.take(0)) =~= seq![TabHistoryEntry::Library]);
    } else {
        lemma_tip_after(tabs, navigations, i - 1);
        assert(tabs[i].navigated_from(tabs[i - 1], navigations[i - 1]));
        assert(navigations.take(i) =~= navigations.take(i - 1).push(navigations[i - 1]));
        assert(history_after(navigations.take(i)) =~= history_after(navigations.take(i - 1)).push(
            entry_for(navigations[i - 1]),
        ));
    }
}

} // verus!
