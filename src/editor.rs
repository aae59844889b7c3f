//! The outside text editor and markdown parser that a file buffer is built on.

use vstd::prelude::*;

use iced::widget::markdown::Item;
use iced::widget::text_editor::{Action, Content};

verus! {

#[verifier::external_type_specification]
#[verifier::external_body]
pub struct ExItem(iced::widget::markdown::Item);

#[verifier::external_type_specification]
#[verifier::external_body]
pub struct ExAction(iced::widget::text_editor::Action);

/// The markdown blocks of a text, in order.
pub uninterp spec fn markdown_of(text: Seq<char>) -> Seq<Item>;

/// Relies on `iced::widget::markdown::parse`, collected: the blocks of `text`, which
/// depend on the text alone.
#[verifier::external_body]
pub(crate) fn parse_markdown(text: &str) -> (r: Vec<Item>)
    ensures
        r@ == markdown_of(text@),
{
    iced::widget::markdown::parse(text).collect()
}

/// Whether an action changes the text: an insertion, a paste, a line break or a deletion,
/// rather than a cursor, selection or scroll change.
pub uninterp spec fn action_edits(action: Action) -> bool;

/// Relies on `text_editor::Action::is_edit`: whether the action is an `Edit`, which
/// depends on the action alone.
#[verifier::external_body]
pub(crate) fn is_edit(action: &Action) -> (r: bool)
    ensures
        r == action_edits(*action),
{
    action.is_edit()
}

/// The state of a text editor: its lines, cursor and selection, held in an iced
/// `text_editor::Content`. That type cannot be declared to Verus (its renderer parameter is
/// bound by an outside trait), so this holder is opaque; the editor widget reads `content`,
/// and everything else goes through the methods below.
#[verifier::external_body]
pub struct Editor {
    pub content: Content,
}

/// The text that an editor holds, as `text_editor::Content::text` gives it.
pub uninterp spec fn editor_text(editor: Editor) -> Seq<char>;

/// The text that an editor made over `text` holds: `text` split into lines and joined
/// again with '\n', ending in '\n'.
pub uninterp spec fn loaded_text(text: Seq<char>) -> Seq<char>;

impl Editor {
    /// Relies on `text_editor::Content::with_text`: an editor over `text`, cursor at its start.
    /// The editor's text depends on `text` alone.
    #[verifier::external_body]
    pub fn with_text(text: &str) -> (r: Editor)
        ensures
            editor_text(r) == loaded_text(text@),
    {
        Editor { content: Content::with_text(text) }
    }

    /// Relies on `text_editor::Content::text`: the lines joined with '\n', with a '\n'
    /// added at the end where the last line does not bring one.
    #[verifier::external_body]
    pub fn text(&self) -> (r: String)
        ensures
            r@ == editor_text(*self),
            r@.len() > 0,
            r@.last() == '\n',
    {
        self.content.text()
    }

    /// Relies on `text_editor::Content::perform`: applies the action to the editor. An
    /// action that is not an `Edit` only moves the cursor, the selection or the view, and
    /// leaves the text as it was.
    #[verifier::external_body]
    pub fn perform(&mut self, action: Action)
        ensures
            !action_edits(action) ==> editor_text(*final(self)) == editor_text(*old(self)),
    {
        self.content.perform(action)
    }
}

} // verus!
