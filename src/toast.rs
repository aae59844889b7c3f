//! Short-lived notifications, each removed by its identifier when its timer fires or
//! when it is dismissed.

use vstd::prelude::*;

use crate::ids::random_id;

verus! {

/// How a notification is shown.
#[derive(Clone, Copy, Debug, PartialEq, Eq, Structural)]
pub enum ToastVariant {
    Info,
    Error,
}

/// One notification.
pub struct Toast {
    title: &'static str,
    variant: ToastVariant,
    pub id: u128,
}

impl Toast {
    /// The notification's identifier.
    pub closed spec fn toast_id(&self) -> u128 {
        self.id
    }

    pub closed spec fn title_spec(&self) -> Seq<char> {
        self.title@
    }

    pub closed spec fn variant_spec(&self) -> ToastVariant {
        self.variant
    }

    /// A notification under the given identifier.
    pub fn with_id(title: &'static str, variant: ToastVariant, id: u128) -> (r: Toast)
        ensures
            r.toast_id() == id,
            r.title_spec() == title@,
            r.variant_spec() == variant,
    {
        Toast { title, variant, id }
    }

    /// A notification under a newly drawn identifier.
    pub fn new(title: &'static str, variant: ToastVariant) -> (r: Toast)
        ensures
            r.title_spec() == title@,
            r.variant_spec() == variant,
    {
        Toast::with_id(title, variant, random_id())
    }

    pub fn id(&self) -> (r: u128)
        ensures
            r == self.toast_id(),
    {
        self.id
    }

    pub fn title(&self) -> (r: &'static str)
        ensures
            r@ == self.title_spec(),
    {
        self.title
    }

    pub fn variant(&self) -> (r: ToastVariant)
        ensures
            r == self.variant_spec(),
    {
        self.variant
    }
}

/// No two notifications share an identifier.
pub open spec fn ids_unique(toasts: Seq<Toast>) -> bool {
    forall|i: int, j: int|
        0 <= i < j < toasts.len() ==> #[trigger] toasts[i].toast_id() != #[trigger] toasts[j].toast_id()
}

/// Whether a notification with identifier `id` is in `toasts`.
pub open spec fn has_toast(toasts: Seq<Toast>, id: u128) -> bool {
    exists|i: int| 0 <= i < toasts.len() && #[trigger] toasts[i].toast_id() == id
}

/// `after` is `before` with the notification `id` taken out, or `before` itself where
/// there is none.
pub open spec fn dismissed_from(after: Seq<Toast>, before: Seq<Toast>, id: u128) -> bool {
    if has_toast(before, id) {
        after == before.remove(
            choose|i: int| 0 <= i < before.len() && #[trigger] before[i].toast_id() == id,
        )
    } else {
        after == before
    }
}

/// Takes the notification `id` out of `toasts`; nothing happens where there is none.
pub fn remove_if_present(toasts: &mut Vec<Toast>, id: u128)
    requires
        ids_unique(old(toasts)@),
    ensures
        ids_unique(final(toasts)@),
        dismissed_from(final(toasts)@, old(toasts)@, id),
{
    let mut i: usize = 0;
    while i < toasts.len()
        invariant
            toasts@ == old(toasts)@,
            ids_unique(toasts@),
            i <= toasts@.len(),
            forall|j: int| 0 <= j < i ==> #[trigger] toasts@[j].toast_id() != id,
        decreases toasts@.len() - i,
    {
        if toasts[i].id == id {
            let ghost before = toasts@;
            let ghost c = choose|c: int| 0 <= c < before.len() && #[trigger] before[c].toast_id() == id;
            assert(before[i as int].toast_id() == id);
            proof {
                if c < i {
                    assert(before[c].toast_id() != before[i as int].toast_id());
                } else if c > i {
                    assert(before[i as int].toast_id() != before[c].toast_id());
                }
            }
            toasts.remove(i);
            assert(ids_unique(toasts@)) by {
                assert forall|a: int, b: int| 0 <= a < b < toasts@.len() implies
                    #[trigger] toasts@[a].toast_id() != #[trigger] toasts@[b].toast_id() by {
                    let a0 = if a < i { a } else { a + 1 };
                    let b0 = if b < i { b } else { b + 1 };
                    assert(toasts@[a] == before[a0]);
                    assert(toasts@[b] == before[b0]);
                    assert(before[a0].toast_id() != before[b0].toast_id());
                }
            }
            return;
        }
        i = i + 1;
    }
}

/// Appends `toast` unless its identifier is already in use; says whether it did.
pub fn push_unique(toasts: &mut Vec<Toast>, toast: Toast) -> (r: bool)
    requires
        ids_unique(old(toasts)@),
    ensures
        ids_unique(final(toasts)@),
        r == !has_toast(old(toasts)@, toast.toast_id()),
        r ==> final(toasts)@ == old(toasts)@.push(toast),
        !r ==> final(toasts)@ == old(toasts)@,
{
    let mut i: usize = 0;
    while i < toasts.len()
        invariant
            toasts@ == old(toasts)@,
            ids_unique(toasts@),
            i <= toasts@.len(),
            forall|j: int| 0 <= j < i ==> #[trigger] toasts@[j].toast_id() != toast.toast_id(),
        decreases toasts@.len() - i,
    {
        if toasts[i].id == toast.id {
            assert(toasts@[i as int].toast_id() == toast.toast_id());
            return false;
        }
        i = i + 1;
    }
    let ghost before = toasts@;
    toasts.push(toast);
    assert(ids_unique(toasts@)) by {
        assert forall|a: int, b: int| 0 <= a < b < toasts@.len() implies
            #[trigger] toasts@[a].toast_id() != #[trigger] toasts@[b].toast_id() by {
            if b == before.len() {
                assert(before[a].toast_id() != toast.toast_id());
            } else {
                assert(toasts@[a] == before[a]);
                assert(toasts@[b] == before[b]);
            }
        }
    }
    true
}

/// Dismissing a notification a second time changes nothing: after the first dismissal no
/// notification carries that identifier, and the identifiers stay unique.
pub proof fn lemma_dismiss_idempotent(before: Seq<Toast>, once: Seq<Toast>, twice: Seq<Toast>, id: u128)
    requires
        ids_unique(before),
        dismissed_from(once, before, id),
        dismissed_from(twice, once, id),
    ensures
        twice == once,
        !has_toast(once, id),
        ids_unique(once),
{
    if has_toast(before, id) {
        let c = choose|i: int| 0 <= i < before.len() && #[trigger] before[i].toast_id() == id;
        assert forall|k: int| 0 <= k < once.len() implies #[trigger] once[k].toast_id() != id by {
            let k0 = if k < c { k } else { k + 1 };
            assert(once[k] == before[k0]);
        }
        assert forall|a: int, b: int| 0 <= a < b < once.len() implies
            #[trigger] once[a].toast_id() != #[trigger] once[b].toast_id() by {
            let a0 = if a < c { a } else { a + 1 };
            let b0 = if b < c { b } else { b + 1 };
            assert(once[a] == before[a0]);
            assert(once[b] == before[b0]);
        }
    }
}

} // verus!
