//! Loaded files: one buffer per path, shared by every tab that opens it.

use vstd::prelude::*;

use iced::widget::markdown::Item;
use iced::widget::text_editor::Action;

use crate::editor::{action_edits, editor_text, is_edit, loaded_text, markdown_of, parse_markdown, Editor};

verus! {

/// The in-memory content of one file and its markdown blocks.
pub struct FileBuffer {
    editor: Editor,
    md_items: Vec<Item>,
    /// The text that the blocks were parsed from.
    source: Ghost<Seq<char>>,
}

impl FileBuffer {
    /// The text that the buffer's editor holds.
    pub closed spec fn text(&self) -> Seq<char> {
        editor_text(self.editor)
    }

    /// The markdown blocks shown in preview mode.
    pub closed spec fn render_items(&self) -> Seq<Item> {
        self.md_items@
    }

    /// The text that the blocks were parsed from: the loaded text, or the text after the
    /// last edit.
    pub closed spec fn source(&self) -> Seq<char> {
        self.source@
    }

    /// The blocks are never stale: they are the parse of `source()`, and the editor holds
    /// either `source()` itself (after an edit) or what it made of it when loaded.
    pub open spec fn wf(&self) -> bool {
        &&& self.render_items() == markdown_of(self.source())
        &&& (self.text() == self.source() || self.text() == loaded_text(self.source()))
    }

    /// A buffer over `content`: the editor is loaded with it and the blocks are parsed
    /// from it once.
    pub fn new(content: &str) -> (r: FileBuffer)
        ensures
            r.wf(),
            r.source() == content@,
            r.text() == loaded_text(content@),
            r.render_items() == markdown_of(content@),
    {
        FileBuffer {
            editor: Editor::with_text(content),
            md_items: parse_markdown(content),
            source: Ghost(content@),
        }
    }

    /// The editor, for the editing widget.
    pub fn editor(&self) -> (r: &Editor)
        ensures
            editor_text(*r) == self.text(),
    {
        &self.editor
    }

    /// The markdown blocks.
    pub fn md_items(&self) -> (r: &Vec<Item>)
        ensures
            r@ == self.render_items(),
    {
        &self.md_items
    }

    /// The current text.
    pub fn contents(&self) -> (r: String)
        ensures
            r@ == self.text(),
    {
        self.editor.text()
    }

    /// Brings the blocks up to date after the editor has taken an action: where it
    /// `edited`, the blocks are parsed from the current text, which is returned to be
    /// persisted; otherwise nothing changes and nothing is returned.
    pub fn refresh(&mut self, edited: bool) -> (r: Option<String>)
        ensures
            final(self).text() == old(self).text(),
            edited ==> r is Some && r->0@ == old(self).text() && final(self).source() == old(self).text()
                && final(self).render_items() == markdown_of(old(self).text()) && final(self).wf(),
            !edited ==> r is None && *final(self) == *old(self),
    {
        if edited {
            let text = self.editor.text();
            self.md_items = parse_markdown(text.as_str());
            self.source = Ghost(text@);
            Some(text)
        } else {
            None
        }
    }

    /// Applies an editor action. An editing action re-parses the blocks from the new text
    /// and returns that text, to be persisted; a cursor, selection or scroll change leaves
    /// the text and the blocks as they were and returns nothing.
    pub fn apply(&mut self, action: Action) -> (r: Option<String>)
        requires
            old(self).wf(),
        ensures
            final(self).wf(),
            r is Some <==> action_edits(action),
            r is Some ==> r->0@ == final(self).text() && final(self).source() == r->0@
                && final(self).render_items() == markdown_of(r->0@),
            r is None ==> final(self).text() == old(self).text()
                && final(self).render_items() == old(self).render_items()
                && final(self).source() == old(self).source(),
    {
        let edited = is_edit(&action);
        self.editor.perform(action);
        self.refresh(edited)
    }
}

/// The buffer cache: at most one buffer per path.
pub struct Buffers {
    entries: Vec<(String, FileBuffer)>,
    map: Ghost<Map<Seq<char>, FileBuffer>>,
}

impl View for Buffers {
    type V = Map<Seq<char>, FileBuffer>;

    closed spec fn view(&self) -> Map<Seq<char>, FileBuffer> {
        self.map@
    }
}

impl Buffers {
    /// The entries are exactly the map's, one per path.
    pub closed spec fn wf(&self) -> bool {
        &&& forall|i: int|
            #![trigger self.entries@[i]]
            0 <= i < self.entries@.len() ==> {
                &&& self.map@.contains_key(self.entries@[i].0@)
                &&& self.map@[self.entries@[i].0@] == self.entries@[i].1
            }
        &&& forall|k: Seq<char>|
            #[trigger] self.map@.contains_key(k) ==> exists|i: int|
                0 <= i < self.entries@.len() && #[trigger] self.entries@[i].0@ == k
        &&& forall|i: int, j: int|
            0 <= i < j < self.entries@.len() ==> #[trigger] self.entries@[i].0@
                != #[trigger] self.entries@[j].0@
    }

    /// An empty cache.
    pub fn new() -> (r: Buffers)
        ensures
            r.wf(),
            r@ == Map::<Seq<char>, FileBuffer>::empty(),
    {
        Buffers { entries: Vec::new(), map: Ghost(Map::empty()) }
    }

    /// The position of `path`'s entry.
    fn find(&self, path: &String) -> (r: Option<usize>)
        requires
            self.wf(),
        ensures
            r is Some ==> r->0 < self.entries@.len() && self.entries@[r->0 as int].0@ == path@,
            r is None ==> !self@.contains_key(path@),
    {
        let mut i: usize = 0;
        while i < self.entries.len()
            invariant
                self.wf(),
                i <= self.entries@.len(),
                forall|j: int| 0 <= j < i ==> #[trigger] self.entries@[j].0@ != path@,
            decreases self.entries@.len() - i,
        {
            if self.entries[i].0 == *path {
                return Some(i);
            }
            i = i + 1;
        }
        None
    }

    /// Whether a buffer for `path` is loaded.
    pub fn contains_key(&self, path: &String) -> (r: bool)
        requires
            self.wf(),
        ensures
            r == self@.contains_key(path@),
    {
        self.find(path).is_some()
    }

    /// The buffer for `path`, if one is loaded.
    pub fn get(&self, path: &String) -> (r: Option<&FileBuffer>)
        requires
            self.wf(),
        ensures
            match r {
                Some(b) => self@.contains_key(path@) && *b == self@[path@],
                None => !self@.contains_key(path@),
            },
    {
        match self.find(path) {
            Some(i) => Some(&self.entries[i].1),
            None => None,
        }
    }

    /// Installs `buffer` for `path`, in place of any buffer it had.
    pub fn insert(&mut self, path: String, buffer: FileBuffer)
        requires
            old(self).wf(),
        ensures
            final(self).wf(),
            final(self)@ == old(self)@.insert(path@, buffer),
    {
        let ghost key = path@;
        let ghost old_entries = self.entries@;
        let ghost old_map = self.map@;
        let found = self.find(&path);
        match found {
            Some(i) => {
                self.entries.set(i, (path, buffer));
            },
            None => {
                self.entries.push((path, buffer));
            },
        }
        self.map = Ghost(self.map@.insert(key, buffer));
        proof {
            let n = self.entries@.len();
            assert forall|j: int| 0 <= j < n && self.entries@[j].0@ != key implies {
                &&& j < old_entries.len()
                &&& self.entries@[j] == old_entries[j]
            } by {
                if found is None {
                    assert(j < old_entries.len());
                }
            }
            assert forall|k: Seq<char>| #[trigger] self.map@.contains_key(k) implies exists|i: int|
                0 <= i < n && #[trigger] self.entries@[i].0@ == k by {
                if k == key {
                    match found {
                        Some(i) => assert(self.entries@[i as int].0@ == k),
                        None => assert(self.entries@[n - 1].0@ == k),
                    }
                } else {
                    assert(old_map.contains_key(k));
                    let i = choose|i: int| 0 <= i < old_entries.len() && #[trigger] old_entries[i].0@ == k;
                    assert(self.entries@[i].0@ == k);
                }
            }
            assert forall|i: int, j: int| 0 <= i < j < n implies #[trigger] self.entries@[i].0@
                != #[trigger] self.entries@[j].0@ by {
                if found is None {
                    if j == n - 1 {
                        assert(old_map.contains_key(old_entries[i].0@));
                    }
                }
            }
        }
    }

    /// Applies an editor action to the buffer for `path`, as `FileBuffer::apply` does;
    /// without a buffer for `path` nothing changes.
    pub fn apply_edit(&mut self, path: &String, action: Action) -> (r: Option<String>)
        requires
            old(self).wf(),
            old(self)@.contains_key(path@) ==> old(self)@[path@].wf(),
        ensures
            final(self).wf(),
            !old(self)@.contains_key(path@) ==> r is None && final(self)@ == old(self)@,
            old(self)@.contains_key(path@) ==> {
                let b = final(self)@[path@];
                let a = old(self)@[path@];
                &&& final(self)@ == old(self)@.insert(path@, b)
                &&& b.wf()
                &&& r is Some <==> action_edits(action)
                &&& r is Some ==> r->0@ == b.text() && b.source() == r->0@
                    && b.render_items() == markdown_of(r->0@)
                &&& r is None ==> b.text() == a.text() && b.render_items() == a.render_items()
                    && b.source() == a.source()
            },
    {
        match self.find(path) {
            None => None,
            Some(i) => {
                let ghost old_entries = self.entries@;
                assert(self.entries@[i as int].1 == self.map@[path@]);
                let r = self.entries[i].1.apply(action);
                self.map = Ghost(self.map@.insert(path@, self.entries@[i as int].1));
                proof {
                    assert forall|j: int| 0 <= j < self.entries@.len() && j != i implies
                        #[trigger] self.entries@[j] == old_entries[j] by {}
                    assert forall|k: Seq<char>| #[trigger] self.map@.contains_key(k) implies exists|j: int|
                        0 <= j < self.entries@.len() && #[trigger] self.entries@[j].0@ == k by {
                        if k != path@ {
                            let j = choose|j: int| 0 <= j < old_entries.len() && #[trigger] old_entries[j].0@ == k;
                            assert(self.entries@[j].0@ == k);
                        } else {
                            assert(self.entries@[i as int].0@ == k);
                        }
                    }
                }
                r
            },
        }
    }
}

} // verus!
