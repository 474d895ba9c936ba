//! Short notices shown over the window, each removed again after a while.
use vstd::prelude::*;

verus! {

/// How long a notice stays, in seconds.
pub const TOAST_SECONDS: u64 = 5;

/// The kind of a notice.
#[derive(Debug, Clone, Copy, PartialEq, Eq, Structural)]
pub enum ToastVariant {
    Info,
    Error,
}

/// One notice.
#[derive(Debug)]
pub struct ToastItem {
    id: u64,
    message: String,
    variant: ToastVariant,
}

/// The notices on screen, oldest first.
#[derive(Debug)]
pub struct Toast {
    messages: Vec<ToastItem>,
}

/// What can happen to the notices.
#[derive(Debug)]
pub enum ToastMessage {
    Show(String, ToastVariant),
    DeleteToast(u64),
    DoNothing,
}

/// What the owner of the notices must do after a message.
#[derive(Debug, PartialEq, Eq, Structural)]
pub enum ToastAction {
    Nothing,
    /// Wait this many seconds, then send `DeleteToast` with this id.
    DeleteLater { id: u64, seconds: u64 },
}

impl ToastItem {
    /// The notice's id.
    pub closed spec fn key(&self) -> u64 {
        self.id
    }

    /// The notice's text.
    pub closed spec fn text(&self) -> Seq<char> {
        self.message@
    }

    /// The notice's kind.
    pub closed spec fn kind(&self) -> ToastVariant {
        self.variant
    }

    /// The notice's id.
    pub fn id(&self) -> (r: u64)
        ensures
            r == self.key(),
    {
        self.id
    }

    /// The notice's text.
    pub fn message(&self) -> (r: &str)
        ensures
            r@ == self.text(),
    {
        self.message.as_str()
    }

    /// The notice's kind.
    pub fn variant(&self) -> (r: ToastVariant)
        ensures
            r == self.kind(),
    {
        self.variant
    }
}

/// Whether a notice is not the one with id `id`.
pub open spec fn other_than(item: ToastItem, id: u64) -> bool {
    item.key() != id
}

/// The notices without those with id `id`, in their order.
pub open spec fn without_id(s: Seq<ToastItem>, id: u64) -> Seq<ToastItem> {
    s.filter(|t: ToastItem| other_than(t, id))
}

/// The notices before and after a message, and what the owner is asked to
/// do: a new notice goes last, with a deletion asked for later; a deletion
/// removes every notice with that id.
pub open spec fn toast_stepped(
    before: Seq<ToastItem>,
    after: Seq<ToastItem>,
    message: ToastMessage,
    action: ToastAction,
) -> bool {
    match message {
        ToastMessage::Show(text, variant) => {
            &&& after.len() == before.len() + 1
            &&& after.drop_last() == before
            &&& after.last().text() == text@
            &&& after.last().kind() == variant
            &&& action == (ToastAction::DeleteLater {
                id: after.last().key(),
                seconds: TOAST_SECONDS,
            })
        },
        ToastMessage::DeleteToast(id) => {
            &&& after == without_id(before, id)
            &&& action is Nothing
        },
        ToastMessage::DoNothing => after == before && action is Nothing,
    }
}

impl View for Toast {
    type V = Seq<ToastItem>;

    closed spec fn view(&self) -> Seq<ToastItem> {
        self.messages@
    }
}

/// A random id for a new notice.
#[verifier::external_body]
fn random_toast_id() -> (id: u64) {
    rand::random::<u64>()
}

impl Toast {
    /// No notices.
    pub fn new() -> (t: Self)
        ensures
            t@ == Seq::<ToastItem>::empty(),
    {
        Toast { messages: Vec::new() }
    }

    /// The notices, oldest first.
    pub fn messages(&self) -> (r: &[ToastItem])
        ensures
            r@ == self@,
    {
        self.messages.as_slice()
    }

    /// Adds a notice with the given id at the end and asks for its removal
    /// after `TOAST_SECONDS`.
    pub fn show_with_id(&mut self, message: String, variant: ToastVariant, id: u64) -> (action:
        ToastAction)
        ensures
            final(self)@.len() == old(self)@.len() + 1,
            final(self)@.drop_last() == old(self)@,
            final(self)@.last().key() == id,
            final(self)@.last().text() == message@,
            final(self)@.last().kind() == variant,
            action == (ToastAction::DeleteLater { id, seconds: TOAST_SECONDS }),
    {
        self.messages.push(ToastItem { id, message, variant });
        assert(self.messages@.drop_last() =~= old(self).messages@);
        ToastAction::DeleteLater { id, seconds: TOAST_SECONDS }
    }

    /// Removes every notice with id `id`, keeping the order of the others.
    pub fn delete(&mut self, id: u64)
        ensures
            final(self)@ == without_id(old(self)@, id),
    {
        let ghost orig = self.messages@;
        let ghost p = |t: ToastItem| other_than(t, id);
        let mut rest: Vec<ToastItem> = Vec::new();
        std::mem::swap(&mut rest, &mut self.messages);
        let mut kept: Vec<ToastItem> = Vec::new();
        let total: usize = rest.len();
        let mut i: usize = 0;
        while rest.len() > 0
            invariant
                i <= orig.len(),
                orig.len() <= usize::MAX,
                p == (|t: ToastItem| other_than(t, id)),
                rest@ == orig.skip(i as int),
                kept@ == orig.take(i as int).filter(p),
            decreases rest@.len(),
        {
            proof {
                reveal_with_fuel(Seq::filter, 1);
                assert(orig.take(i + 1).drop_last() =~= orig.take(i as int));
                assert(orig.take(i + 1).last() == orig[i as int]);
            }
            let ghost oi = orig[i as int];
            let item = rest.remove(0);
            assert(item == oi);
            assert(orig.take(i + 1).filter(p) == (if p(oi) {
                orig.take(i as int).filter(p).push(oi)
            } else {
                orig.take(i as int).filter(p)
            }));
            if item.id != id {
                kept.push(item);
            }
            assert(rest@ =~= orig.skip(i + 1));
            i = i + 1;
        }
        assert(orig.take(i as int) =~= orig);
        self.messages = kept;
    }

    /// Applies a message; says what the owner must do next. A new notice gets
    /// a random id.
    pub fn update(&mut self, message: ToastMessage) -> (action: ToastAction)
        ensures
            toast_stepped(old(self)@, final(self)@, message, action),
    {
        match message {
            ToastMessage::Show(text, variant) => {
                let id = random_toast_id();
                self.show_with_id(text, variant, id)
            },
            ToastMessage::DeleteToast(id) => {
                self.delete(id);
                ToastAction::Nothing
            },
            ToastMessage::DoNothing => ToastAction::Nothing,
        }
    }
}

/// Filtering a sequence whose items all pass gives it back unchanged.
proof fn lemma_filter_keeps_all(s: Seq<ToastItem>, p: spec_fn(ToastItem) -> bool)
    requires
        forall|i: int| 0 <= i < s.len() ==> #[trigger] p(s[i]),
    ensures
        s.filter(p) == s,
    decreases s.len(),
{
    reveal_with_fuel(Seq::filter, 1);
    if s.len() > 0 {
        lemma_filter_keeps_all(s.drop_last(), p);
        assert(s.drop_last().push(s.last()) =~= s);
    }
}

/// Deleting the notice that was just shown gives back the notices as they
/// were before it, provided no earlier notice had the same id.
pub proof fn lemma_delete_undoes_show(before: Seq<ToastItem>, after_show: Seq<ToastItem>, id: u64)
    requires
        after_show.len() == before.len() + 1,
        after_show.drop_last() == before,
        after_show.last().key() == id,
        forall|i: int| 0 <= i < before.len() ==> #[trigger] before[i].key() != id,
    ensures
        without_id(after_show, id) == before,
{
    let p = |t: ToastItem| other_than(t, id);
    reveal_with_fuel(Seq::filter, 1);
    assert(!p(after_show.last()));
    assert(after_show.filter(p) == after_show.drop_last().filter(p));
    assert forall|i: int| 0 <= i < before.len() implies #[trigger] p(before[i]) by {
        assert(before[i].key() != id);
    }
    lemma_filter_keeps_all(before, p);
}

/// After a notice is deleted, no notice with its id is left.
pub proof fn lemma_deleted_is_gone(before: Seq<ToastItem>, id: u64)
    ensures
        forall|i: int|
            0 <= i < without_id(before, id).len() ==> #[trigger] without_id(before, id)[i].key() != id,
{
    let p = |t: ToastItem| other_than(t, id);
    assert forall|i: int| 0 <= i < before.filter(p).len() implies #[trigger] before.filter(p)[i].key() != id by {
        before.lemma_filter_pred(p, i);
    }
}

} // verus!
