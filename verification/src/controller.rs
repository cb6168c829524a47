//! The editor's state: the document that is loaded and the log of what was
//! done to it. Every change to either goes through here, so the entries of
//! the log always fit the document.

use crate::document::{DocumentView, PartiallySignedTransaction};
use crate::history::{added, lemma_undo_then_redo, redone, undone, History, HistoryView};
use crate::operations::{
    apply_message, lemma_message_inverts, lemma_message_restores, resolves, PsbtMessage,
    PsbtMessageView,
};
use vstd::prelude::*;

verus! {

/// Whether the first `position` entries can be applied one after the other,
/// the last first, each finding in the document that the one before it left
/// what it is aimed at.
pub open spec fn undoable(
    items: Seq<PsbtMessageView>,
    position: nat,
    document: Option<DocumentView>,
) -> bool
    decreases position,
{
    position == 0 || {
        &&& position <= items.len()
        &&& resolves(items[position - 1], document)
        &&& undoable(
            items,
            (position - 1) as nat,
            apply_message(items[position - 1], document).0,
        )
    }
}

/// Whether the entries from `position` on can be applied one after the
/// other, each finding in the document that the one before it left what it
/// is aimed at.
pub open spec fn redoable(
    items: Seq<PsbtMessageView>,
    position: nat,
    document: Option<DocumentView>,
) -> bool
    decreases items.len() - position,
{
    position >= items.len() || {
        &&& resolves(items[position as int], document)
        &&& redoable(items, position + 1, apply_message(items[position as int], document).0)
    }
}

/// The editor's state as a mathematical value.
pub struct PsbtView {
    pub document: Option<DocumentView>,
    pub log: HistoryView,
}

impl PsbtView {
    /// The log fits the document: every entry, when its turn comes, finds
    /// what it is aimed at.
    pub open spec fn consistent(self) -> bool {
        &&& self.log.wf()
        &&& undoable(self.log.items, self.log.position, self.document)
        &&& redoable(self.log.items, self.log.position, self.document)
    }
}

/// The state after a message: `Undo` and `Redo` move along the log, and any
/// other message is applied to the document and what takes it back is
/// recorded. The flag says whether anything was done.
pub open spec fn updated(state: PsbtView, msg: PsbtMessageView) -> (PsbtView, bool) {
    match msg {
        PsbtMessageView::Undo => {
            let (log, document, found) = undone(state.log, state.document);
            (PsbtView { document, log }, found)
        },
        PsbtMessageView::Redo => {
            let (log, document, found) = redone(state.log, state.document);
            (PsbtView { document, log }, found)
        },
        _ => {
            let (document, back) = apply_message(msg, state.document);
            (PsbtView { document, log: added(state.log, back) }, true)
        },
    }
}

/// Entries behind the position do not matter to what can be taken back.
proof fn lemma_undoable_prefix(
    first: Seq<PsbtMessageView>,
    second: Seq<PsbtMessageView>,
    position: nat,
    document: Option<DocumentView>,
)
    requires
        position <= first.len(),
        position <= second.len(),
        forall|i: int| 0 <= i < position ==> first[i] == second[i],
    ensures
        undoable(first, position, document) == undoable(second, position, document),
    decreases position,
{
    if position > 0 {
        lemma_undoable_prefix(
            first,
            second,
            (position - 1) as nat,
            apply_message(first[position - 1], document).0,
        );
    }
}

/// Entries below the position do not matter to what can be made again.
proof fn lemma_redoable_suffix(
    first: Seq<PsbtMessageView>,
    second: Seq<PsbtMessageView>,
    position: nat,
    document: Option<DocumentView>,
)
    requires
        first.len() == second.len(),
        forall|i: int| position <= i < first.len() ==> first[i] == second[i],
    ensures
        redoable(first, position, document) == redoable(second, position, document),
    decreases first.len() - position,
{
    if position < first.len() {
        lemma_redoable_suffix(
            first,
            second,
            position + 1,
            apply_message(first[position as int], document).0,
        );
    }
}

/// Every message leaves the log fitting the document.
pub proof fn lemma_update_keeps_consistent(state: PsbtView, msg: PsbtMessageView)
    requires
        state.consistent(),
    ensures
        updated(state, msg).0.consistent(),
{
    let items = state.log.items;
    let position = state.log.position;
    let next = updated(state, msg).0;
    match msg {
        PsbtMessageView::Undo => {
            if position > 0 {
                let slot = (position - 1) as nat;
                lemma_message_inverts(items[slot as int], state.document);
                lemma_undoable_prefix(items, next.log.items, slot, next.document);
                lemma_redoable_suffix(items, next.log.items, position, state.document);
            }
        },
        PsbtMessageView::Redo => {
            if position < items.len() {
                lemma_message_inverts(items[position as int], state.document);
                lemma_undoable_prefix(items, next.log.items, position, state.document);
                lemma_redoable_suffix(items, next.log.items, position + 1, next.document);
            }
        },
        _ => {
            lemma_message_restores(msg, state.document);
            lemma_undoable_prefix(items, next.log.items, position, state.document);
        },
    }
}

/// In a state whose log fits the document, `Undo` followed by `Redo` leaves
/// the document and every entry of the log as they were, wherever there is
/// something to take back.
pub proof fn lemma_undo_redo_is_identity(state: PsbtView)
    requires
        state.consistent(),
        0 < state.log.position,
    ensures
        ({
            let (between, found) = updated(state, PsbtMessageView::Undo);
            &&& found
            &&& updated(between, PsbtMessageView::Redo) == (state, true)
        }),
{
    lemma_undo_then_redo(state.log, state.document);
}

/// After `Undo` and then an operation, `Redo` finds nothing to make again
/// and leaves the state as it is: what was taken back is out of reach.
pub proof fn lemma_operation_after_undo_cuts_redo(state: PsbtView, msg: PsbtMessageView)
    requires
        state.consistent(),
        0 < state.log.position,
        !(msg is Undo),
        !(msg is Redo),
    ensures
        ({
            let (first, found) = updated(state, PsbtMessageView::Undo);
            let (second, done) = updated(first, msg);
            &&& found
            &&& done
            &&& first.log.position == state.log.position - 1
            &&& second.log.position == state.log.position
            &&& updated(second, PsbtMessageView::Redo) == (second, false)
        }),
{
}

/// The document and its log.
#[derive(Debug)]
pub struct Psbt {
    psbt: Option<PartiallySignedTransaction>,
    history: History,
}

impl DeepView for Psbt {
    type V = PsbtView;

    closed spec fn deep_view(&self) -> PsbtView {
        PsbtView { document: self.psbt.deep_view(), log: self.history.deep_view() }
    }
}

impl Psbt {
    /// The log fits the document.
    #[verifier::type_invariant]
    spec fn fits(&self) -> bool {
        self.deep_view().consistent()
    }

    /// No document, and an empty log.
    pub fn new() -> (state: Psbt)
        ensures
            state.deep_view().document is None,
            state.deep_view().log.items == Seq::<PsbtMessageView>::empty(),
            state.deep_view().log.position == 0,
            state.deep_view().consistent(),
    {
        Psbt { psbt: None, history: History::default() }
    }

    /// The document that is loaded, if one is. The log fits it.
    pub fn psbt(&self) -> (document: &Option<PartiallySignedTransaction>)
        ensures
            document.deep_view() == self.deep_view().document,
            self.deep_view().consistent(),
    {
        proof {
            use_type_invariant(self);
        }
        &self.psbt
    }

    /// The log. It fits the document.
    pub fn history(&self) -> (log: &History)
        ensures
            log.deep_view() == self.deep_view().log,
            self.deep_view().consistent(),
    {
        proof {
            use_type_invariant(self);
        }
        &self.history
    }

    /// Handles a message: `Undo` and `Redo` move along the log; any other
    /// message is applied to the document, and what takes it back is
    /// recorded. Returns whether anything was done. The log fits the
    /// document before and after.
    pub fn update(&mut self, msg: PsbtMessage) -> (done: bool)
        ensures
            (final(self).deep_view(), done) == updated(old(self).deep_view(), msg.deep_view()),
            old(self).deep_view().consistent(),
            final(self).deep_view().consistent(),
    {
        proof {
            use_type_invariant(&*self);
            lemma_update_keeps_consistent(self.deep_view(), msg.deep_view());
        }
        let mut psbt = None;
        let mut history = History::default();
        std::mem::swap(&mut self.history, &mut history);
        std::mem::swap(&mut self.psbt, &mut psbt);
        let done = match msg {
            PsbtMessage::Undo => history.undo(&mut psbt),
            PsbtMessage::Redo => history.redo(&mut psbt),
            msg => {
                let opposite = msg.apply_to(&mut psbt);
                history.add(opposite);
                true
            },
        };
        std::mem::swap(&mut self.psbt, &mut psbt);
        std::mem::swap(&mut self.history, &mut history);
        done
    }
}

} // verus!
