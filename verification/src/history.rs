//! The log of what was done to the document, for taking it back and making
//! it again.
//!
//! The log is a sequence of operations and a position in it. Below the
//! position stand the operations that take back what was done, the latest
//! last; from the position on stand those that make again what was taken
//! back, the next first. An entry that is applied is replaced by the
//! operation that the application returned, so each entry takes turns
//! between the two meanings.

use crate::document::{DocumentView, PartiallySignedTransaction};
use crate::operations::{
    apply_message, lemma_message_inverts, resolves, PsbtMessage, PsbtMessageView,
};
use vstd::prelude::*;

verus! {

/// The log. It holds the entries below the position in their order, and
/// those from the position on in reverse, the next one last.
#[derive(Clone, Debug)]
pub struct History {
    done: Vec<PsbtMessage>,
    undone: Vec<PsbtMessage>,
}

/// The log as a mathematical value: the entries and the position, which is
/// at most their number.
pub struct HistoryView {
    pub items: Seq<PsbtMessageView>,
    pub position: nat,
}

impl HistoryView {
    /// The position lies within the entries or at their end.
    pub open spec fn wf(self) -> bool {
        self.position <= self.items.len()
    }
}

impl DeepView for History {
    type V = HistoryView;

    closed spec fn deep_view(&self) -> HistoryView {
        let done = self.done.deep_view();
        let undone = self.undone.deep_view();
        HistoryView {
            items: Seq::new(
                done.len() + undone.len(),
                |i: int|
                    if i < done.len() {
                        done[i]
                    } else {
                        undone[undone.len() - 1 - (i - done.len())]
                    },
            ),
            position: done.len(),
        }
    }
}

/// The log after a new operation was recorded: what stood from the position
/// on is gone, the operation stands last, and the position is behind it.
pub open spec fn added(log: HistoryView, action: PsbtMessageView) -> HistoryView {
    HistoryView {
        items: log.items.take(log.position as int).push(action),
        position: log.position + 1,
    }
}

/// The log and the document after the entry below the position was applied,
/// and whether there was one.
pub open spec fn undone(log: HistoryView, document: Option<DocumentView>) -> (
    HistoryView,
    Option<DocumentView>,
    bool,
) {
    if log.position == 0 {
        (log, document, false)
    } else {
        let slot = log.position - 1;
        let (after, back) = apply_message(log.items[slot], document);
        (HistoryView { items: log.items.update(slot, back), position: slot as nat }, after, true)
    }
}

/// The log and the document after the entry at the position was applied,
/// and whether there was one.
pub open spec fn redone(log: HistoryView, document: Option<DocumentView>) -> (
    HistoryView,
    Option<DocumentView>,
    bool,
) {
    if log.position >= log.items.len() {
        (log, document, false)
    } else {
        let slot = log.position as int;
        let (after, back) = apply_message(log.items[slot], document);
        (HistoryView { items: log.items.update(slot, back), position: log.position + 1 }, after, true)
    }
}

impl Default for History {
    /// The log without entries.
    fn default() -> (log: History)
        ensures
            log.deep_view().items == Seq::<PsbtMessageView>::empty(),
            log.deep_view().position == 0,
    {
        let log = History { done: Vec::new(), undone: Vec::new() };
        assert(log.deep_view().items =~= Seq::<PsbtMessageView>::empty());
        log
    }
}

impl History {
    /// The position is never behind the end.
    pub proof fn lemma_wf(&self)
        ensures
            self.deep_view().wf(),
    {
    }

    /// The position: the number of operations that can be taken back.
    pub fn position(&self) -> (position: usize)
        ensures
            position == self.deep_view().position,
    {
        self.done.len()
    }

    /// Records the operation that takes back what was just done. What was
    /// taken back before and not made again can no longer be made again.
    pub fn add(&mut self, action: PsbtMessage)
        ensures
            final(self).deep_view() == added(old(self).deep_view(), action.deep_view()),
    {
        self.undone.clear();
        self.done.push(action);
        assert(self.deep_view().items =~= added(old(self).deep_view(), action.deep_view()).items);
    }

    /// Takes back the latest operation that stands, if there is one, and
    /// says whether there was.
    pub fn undo(&mut self, psbt: &mut Option<PartiallySignedTransaction>) -> (found: bool)
        ensures
            (final(self).deep_view(), final(psbt).deep_view(), found) == undone(
                old(self).deep_view(),
                old(psbt).deep_view(),
            ),
    {
        match self.done.pop() {
            None => false,
            Some(action) => {
                let back = action.apply_to(psbt);
                self.undone.push(back);
                assert(self.deep_view().items =~= undone(
                    old(self).deep_view(),
                    old(psbt).deep_view(),
                ).0.items);
                true
            },
        }
    }

    /// Makes again the operation that was taken back last, if there is one,
    /// and says whether there was.
    pub fn redo(&mut self, psbt: &mut Option<PartiallySignedTransaction>) -> (found: bool)
        ensures
            (final(self).deep_view(), final(psbt).deep_view(), found) == redone(
                old(self).deep_view(),
                old(psbt).deep_view(),
            ),
    {
        match self.undone.pop() {
            None => false,
            Some(action) => {
                let back = action.apply_to(psbt);
                self.done.push(back);
                assert(self.deep_view().items =~= redone(
                    old(self).deep_view(),
                    old(psbt).deep_view(),
                ).0.items);
                true
            },
        }
    }
}

/// Taking back and then making again leaves the document and the log as
/// they were, where the entry below the position finds in the document what
/// it is aimed at.
pub proof fn lemma_undo_then_redo(log: HistoryView, document: Option<DocumentView>)
    requires
        log.wf(),
        0 < log.position,
        resolves(log.items[log.position - 1], document),
    ensures
        ({
            let (log1, document1, found1) = undone(log, document);
            &&& found1
            &&& redone(log1, document1) == (log, document, true)
        }),
{
    let slot = log.position - 1;
    lemma_message_inverts(log.items[slot], document);
    let (log1, document1, found1) = undone(log, document);
    assert(redone(log1, document1).0.items =~= log.items);
}

/// Making again and then taking back leaves the document and the log as
/// they were, where the entry at the position finds in the document what it
/// is aimed at.
pub proof fn lemma_redo_then_undo(log: HistoryView, document: Option<DocumentView>)
    requires
        log.wf(),
        log.position < log.items.len(),
        resolves(log.items[log.position as int], document),
    ensures
        ({
            let (log1, document1, found1) = redone(log, document);
            &&& found1
            &&& undone(log1, document1) == (log, document, true)
        }),
{
    let slot = log.position as int;
    lemma_message_inverts(log.items[slot], document);
    let (log1, document1, found1) = redone(log, document);
    assert(undone(log1, document1).0.items =~= log.items);
}

/// After an operation was taken back and a new one recorded, there is
/// nothing to make again: the log ends at the position, and `redone` leaves
/// log and document as they are.
pub proof fn lemma_add_cuts_what_was_undone(
    log: HistoryView,
    document: Option<DocumentView>,
    action: PsbtMessageView,
    later: Option<DocumentView>,
)
    requires
        log.wf(),
        0 < log.position,
    ensures
        ({
            let (log1, document1, found1) = undone(log, document);
            let log2 = added(log1, action);
            &&& found1
            &&& log1.position == log.position - 1
            &&& log2.position == log.position
            &&& log2.items.len() == log2.position
            &&& redone(log2, later) == (log2, later, false)
        }),
{
}

} // verus!
