//! The edit operations. Applying one changes what it is aimed at and
//! returns the operation that takes the change back.

use crate::document::{
    DocumentView, InputRecord, InputView, OutputRecord, OutputView, PartiallySignedTransaction,
};
use crate::keymap::KeyMap;
use crate::values::{KeySource, PublicKey, Script, SigHashType, Transaction, TxOut};
use vstd::prelude::*;

verus! {

/// A change to a keyed collection.
#[derive(Debug)]
pub enum MapUpdate<K, V> {
    /// Put this value under this key, in place of what is there.
    Insert(K, V),
    /// Take out the entry under this key.
    Remove(K),
    /// Make the first change and then the second, as one.
    Both(Box<MapUpdate<K, V>>, Box<MapUpdate<K, V>>),
}

/// Whether one change is a copy of another: the same steps, with each key
/// and each value what `clone` makes of it.
pub open spec fn is_copy<K: Clone, V: Clone>(change: MapUpdate<K, V>, copy: MapUpdate<K, V>) -> bool
    decreases change,
{
    match (change, copy) {
        (MapUpdate::Insert(k, v), MapUpdate::Insert(k2, v2)) => cloned(k, k2) && cloned(v, v2),
        (MapUpdate::Remove(k), MapUpdate::Remove(k2)) => cloned(k, k2),
        (MapUpdate::Both(first, second), MapUpdate::Both(first2, second2)) => is_copy(
            *first,
            *first2,
        ) && is_copy(*second, *second2),
        _ => false,
    }
}

impl<K: Clone, V: Clone> Clone for MapUpdate<K, V> {
    fn clone(&self) -> (copy: Self)
        ensures
            is_copy(*self, copy),
        decreases self,
    {
        match self {
            MapUpdate::Insert(key, value) => MapUpdate::Insert(key.clone(), value.clone()),
            MapUpdate::Remove(key) => MapUpdate::Remove(key.clone()),
            MapUpdate::Both(first, second) => MapUpdate::Both(
                Box::new((**first).clone()),
                Box::new((**second).clone()),
            ),
        }
    }
}

impl<K: DeepView, V: DeepView> DeepView for MapUpdate<K, V> {
    type V = MapUpdate<K::V, V::V>;

    open spec fn deep_view(&self) -> MapUpdate<K::V, V::V>
        decreases self,
    {
        match self {
            MapUpdate::Insert(k, v) => MapUpdate::Insert(k.deep_view(), v.deep_view()),
            MapUpdate::Remove(k) => MapUpdate::Remove(k.deep_view()),
            MapUpdate::Both(first, second) => MapUpdate::Both(
                Box::new((**first).deep_view()),
                Box::new((**second).deep_view()),
            ),
        }
    }
}

/// The change that brings back what is under `key` in `map`.
pub open spec fn restoring<K, V>(map: Map<K, V>, key: K) -> MapUpdate<K, V> {
    if map.contains_key(key) {
        MapUpdate::Insert(key, map[key])
    } else {
        MapUpdate::Remove(key)
    }
}

/// What a change makes of a mapping, and the change that takes it back.
pub open spec fn apply_update<K, V>(update: MapUpdate<K, V>, map: Map<K, V>) -> (
    Map<K, V>,
    MapUpdate<K, V>,
)
    decreases update,
{
    match update {
        MapUpdate::Insert(key, value) => (map.insert(key, value), restoring(map, key)),
        MapUpdate::Remove(key) => (map.remove(key), restoring(map, key)),
        MapUpdate::Both(first, second) => {
            let (between, first_back) = apply_update(*first, map);
            let (after, second_back) = apply_update(*second, between);
            (after, MapUpdate::Both(Box::new(second_back), Box::new(first_back)))
        },
    }
}

/// Applying the change that an application returned brings back the
/// mapping, and returns the change that was applied.
pub proof fn lemma_update_inverts<K, V>(update: MapUpdate<K, V>, map: Map<K, V>)
    ensures
        apply_update(apply_update(update, map).1, apply_update(update, map).0) == (map, update),
    decreases update,
{
    let (after, back) = apply_update(update, map);
    match update {
        MapUpdate::Insert(key, value) => {
            assert(apply_update(back, after).0 =~= map);
        },
        MapUpdate::Remove(key) => {
            assert(apply_update(back, after).0 =~= map);
        },
        MapUpdate::Both(first, second) => {
            let (between, first_back) = apply_update(*first, map);
            lemma_update_inverts(*first, map);
            lemma_update_inverts(*second, between);
        },
    }
}

impl<V: DeepView> MapUpdate<PublicKey, V> {
    /// Makes the change to `map` and returns the change that takes it back.
    pub fn apply_to(self, map: &mut KeyMap<V>) -> (back: MapUpdate<PublicKey, V>)
        ensures
            (final(map).deep_view(), back.deep_view()) == apply_update(
                self.deep_view(),
                old(map).deep_view(),
            ),
        decreases self,
    {
        match self {
            MapUpdate::Insert(key, value) => {
                let copy = key.clone();
                match map.insert(copy, value) {
                    Some(previous) => MapUpdate::Insert(key, previous),
                    None => MapUpdate::Remove(key),
                }
            },
            MapUpdate::Remove(key) => {
                match map.remove(&key) {
                    Some(previous) => MapUpdate::Insert(key, previous),
                    None => MapUpdate::Remove(key),
                }
            },
            MapUpdate::Both(first, second) => {
                let first_back = (*first).apply_to(map);
                let second_back = (*second).apply_to(map);
                MapUpdate::Both(Box::new(second_back), Box::new(first_back))
            },
        }
    }
}

/// A change to one field of an input record.
#[derive(Clone, Debug)]
pub enum PsbtInputMsg {
    ChangeSigHash(Option<SigHashType>),
    ChangeWitnessUtxo(Option<TxOut>),
    ChangeNonWitnessUtxo(Option<Transaction>),
    ChangeRedeemScript(Option<Script>),
    ChangeWitnessScript(Option<Script>),
    ChangeFinalScript(Option<Script>),
    ChangeFinalWitness(Option<Vec<Vec<u8>>>),
    ChangePartialSigs(MapUpdate<PublicKey, Vec<u8>>),
    ChangeBIP32Derivation(MapUpdate<PublicKey, KeySource>),
}

/// A change to an input record as a mathematical value.
pub enum PsbtInputMsgView {
    ChangeSigHash(Option<SigHashType>),
    ChangeWitnessUtxo(Option<(u64, Seq<u8>)>),
    ChangeNonWitnessUtxo(Option<Seq<u8>>),
    ChangeRedeemScript(Option<Seq<u8>>),
    ChangeWitnessScript(Option<Seq<u8>>),
    ChangeFinalScript(Option<Seq<u8>>),
    ChangeFinalWitness(Option<Seq<Seq<u8>>>),
    ChangePartialSigs(MapUpdate<Seq<u8>, Seq<u8>>),
    ChangeBIP32Derivation(MapUpdate<Seq<u8>, (Seq<u8>, Seq<u32>)>),
}

impl DeepView for PsbtInputMsg {
    type V = PsbtInputMsgView;

    open spec fn deep_view(&self) -> PsbtInputMsgView {
        match self {
            PsbtInputMsg::ChangeSigHash(v) => PsbtInputMsgView::ChangeSigHash(*v),
            PsbtInputMsg::ChangeWitnessUtxo(v) => PsbtInputMsgView::ChangeWitnessUtxo(v.deep_view()),
            PsbtInputMsg::ChangeNonWitnessUtxo(v) => PsbtInputMsgView::ChangeNonWitnessUtxo(
                v.deep_view(),
            ),
            PsbtInputMsg::ChangeRedeemScript(v) => PsbtInputMsgView::ChangeRedeemScript(
                v.deep_view(),
            ),
            PsbtInputMsg::ChangeWitnessScript(v) => PsbtInputMsgView::ChangeWitnessScript(
                v.deep_view(),
            ),
            PsbtInputMsg::ChangeFinalScript(v) => PsbtInputMsgView::ChangeFinalScript(v.deep_view()),
            PsbtInputMsg::ChangeFinalWitness(v) => PsbtInputMsgView::ChangeFinalWitness(
                v.deep_view(),
            ),
            PsbtInputMsg::ChangePartialSigs(u) => PsbtInputMsgView::ChangePartialSigs(u.deep_view()),
            PsbtInputMsg::ChangeBIP32Derivation(u) => PsbtInputMsgView::ChangeBIP32Derivation(
                u.deep_view(),
            ),
        }
    }
}

/// What a change makes of an input record, and the change that takes it
/// back: the field takes the new content, and the old content goes into the
/// change returned.
pub open spec fn apply_input(msg: PsbtInputMsgView, record: InputView) -> (
    InputView,
    PsbtInputMsgView,
) {
    match msg {
        PsbtInputMsgView::ChangeSigHash(v) => (
            InputView { sighash_type: v, ..record },
            PsbtInputMsgView::ChangeSigHash(record.sighash_type),
        ),
        PsbtInputMsgView::ChangeWitnessUtxo(v) => (
            InputView { witness_utxo: v, ..record },
            PsbtInputMsgView::ChangeWitnessUtxo(record.witness_utxo),
        ),
        PsbtInputMsgView::ChangeNonWitnessUtxo(v) => (
            InputView { non_witness_utxo: v, ..record },
            PsbtInputMsgView::ChangeNonWitnessUtxo(record.non_witness_utxo),
        ),
        PsbtInputMsgView::ChangeRedeemScript(v) => (
            InputView { redeem_script: v, ..record },
            PsbtInputMsgView::ChangeRedeemScript(record.redeem_script),
        ),
        PsbtInputMsgView::ChangeWitnessScript(v) => (
            InputView { witness_script: v, ..record },
            PsbtInputMsgView::ChangeWitnessScript(record.witness_script),
        ),
        PsbtInputMsgView::ChangeFinalScript(v) => (
            InputView { final_script_sig: v, ..record },
            PsbtInputMsgView::ChangeFinalScript(record.final_script_sig),
        ),
        PsbtInputMsgView::ChangeFinalWitness(v) => (
            InputView { final_script_witness: v, ..record },
            PsbtInputMsgView::ChangeFinalWitness(record.final_script_witness),
        ),
        PsbtInputMsgView::ChangePartialSigs(u) => {
            let (map, back) = apply_update(u, record.partial_sigs);
            (InputView { partial_sigs: map, ..record }, PsbtInputMsgView::ChangePartialSigs(back))
        },
        PsbtInputMsgView::ChangeBIP32Derivation(u) => {
            let (map, back) = apply_update(u, record.bip32_derivation);
            (
                InputView { bip32_derivation: map, ..record },
                PsbtInputMsgView::ChangeBIP32Derivation(back),
            )
        },
    }
}

impl PsbtInputMsg {
    /// Makes the change to the record and returns the change that takes it
    /// back.
    pub fn apply_to(self, psbt_input: &mut InputRecord) -> (back: PsbtInputMsg)
        ensures
            (final(psbt_input).deep_view(), back.deep_view()) == apply_input(
                self.deep_view(),
                old(psbt_input).deep_view(),
            ),
    {
        match self {
            PsbtInputMsg::ChangeSigHash(sighash) => {
                let mut content = sighash;
                std::mem::swap(&mut psbt_input.sighash_type, &mut content);
                PsbtInputMsg::ChangeSigHash(content)
            },
            PsbtInputMsg::ChangeWitnessUtxo(witness_utxo) => {
                let mut content = witness_utxo;
                std::mem::swap(&mut psbt_input.witness_utxo, &mut content);
                PsbtInputMsg::ChangeWitnessUtxo(content)
            },
            PsbtInputMsg::ChangeNonWitnessUtxo(non_witness_utxo) => {
                let mut content = non_witness_utxo;
                std::mem::swap(&mut psbt_input.non_witness_utxo, &mut content);
                PsbtInputMsg::ChangeNonWitnessUtxo(content)
            },
            PsbtInputMsg::ChangeRedeemScript(redeem_script) => {
                let mut content = redeem_script;
                std::mem::swap(&mut psbt_input.redeem_script, &mut content);
                PsbtInputMsg::ChangeRedeemScript(content)
            },
            PsbtInputMsg::ChangeWitnessScript(witness_script) => {
                let mut content = witness_script;
                std::mem::swap(&mut psbt_input.witness_script, &mut content);
                PsbtInputMsg::ChangeWitnessScript(content)
            },
            PsbtInputMsg::ChangeFinalScript(final_script_sig) => {
                let mut content = final_script_sig;
                std::mem::swap(&mut psbt_input.final_script_sig, &mut content);
                PsbtInputMsg::ChangeFinalScript(content)
            },
            PsbtInputMsg::ChangeFinalWitness(final_script_witness) => {
                let mut content = final_script_witness;
                std::mem::swap(&mut psbt_input.final_script_witness, &mut content);
                PsbtInputMsg::ChangeFinalWitness(content)
            },
            PsbtInputMsg::ChangePartialSigs(update) => PsbtInputMsg::ChangePartialSigs(
                update.apply_to(&mut psbt_input.partial_sigs),
            ),
            PsbtInputMsg::ChangeBIP32Derivation(update) => PsbtInputMsg::ChangeBIP32Derivation(
                update.apply_to(&mut psbt_input.bip32_derivation),
            ),
        }
    }
}

/// A change to one field of an output record.
#[derive(Clone, Debug)]
pub enum PsbtOutputMsg {
    ChangeRedeemScript(Option<Script>),
    ChangeWitnessScript(Option<Script>),
    ChangeBIP32Derivation(MapUpdate<PublicKey, KeySource>),
}

/// A change to an output record as a mathematical value.
pub enum PsbtOutputMsgView {
    ChangeRedeemScript(Option<Seq<u8>>),
    ChangeWitnessScript(Option<Seq<u8>>),
    ChangeBIP32Derivation(MapUpdate<Seq<u8>, (Seq<u8>, Seq<u32>)>),
}

impl DeepView for PsbtOutputMsg {
    type V = PsbtOutputMsgView;

    open spec fn deep_view(&self) -> PsbtOutputMsgView {
        match self {
            PsbtOutputMsg::ChangeRedeemScript(v) => PsbtOutputMsgView::ChangeRedeemScript(
                v.deep_view(),
            ),
            PsbtOutputMsg::ChangeWitnessScript(v) => PsbtOutputMsgView::ChangeWitnessScript(
                v.deep_view(),
            ),
            PsbtOutputMsg::ChangeBIP32Derivation(u) => PsbtOutputMsgView::ChangeBIP32Derivation(
                u.deep_view(),
            ),
        }
    }
}

/// What a change makes of an output record, and the change that takes it
/// back.
pub open spec fn apply_output(msg: PsbtOutputMsgView, record: OutputView) -> (
    OutputView,
    PsbtOutputMsgView,
) {
    match msg {
        PsbtOutputMsgView::ChangeRedeemScript(v) => (
            OutputView { redeem_script: v, ..record },
            PsbtOutputMsgView::ChangeRedeemScript(record.redeem_script),
        ),
        PsbtOutputMsgView::ChangeWitnessScript(v) => (
            OutputView { witness_script: v, ..record },
            PsbtOutputMsgView::ChangeWitnessScript(record.witness_script),
        ),
        PsbtOutputMsgView::ChangeBIP32Derivation(u) => {
            let (map, back) = apply_update(u, record.bip32_derivation);
            (
                OutputView { bip32_derivation: map, ..record },
                PsbtOutputMsgView::ChangeBIP32Derivation(back),
            )
        },
    }
}

impl PsbtOutputMsg {
    /// Makes the change to the record and returns the change that takes it
    /// back.
    pub fn apply_to(self, psbt_output: &mut OutputRecord) -> (back: PsbtOutputMsg)
        ensures
            (final(psbt_output).deep_view(), back.deep_view()) == apply_output(
                self.deep_view(),
                old(psbt_output).deep_view(),
            ),
    {
        match self {
            PsbtOutputMsg::ChangeRedeemScript(redeem_script) => {
                let mut content = redeem_script;
                std::mem::swap(&mut psbt_output.redeem_script, &mut content);
                PsbtOutputMsg::ChangeRedeemScript(content)
            },
            PsbtOutputMsg::ChangeWitnessScript(witness_script) => {
                let mut content = witness_script;
                std::mem::swap(&mut psbt_output.witness_script, &mut content);
                PsbtOutputMsg::ChangeWitnessScript(content)
            },
            PsbtOutputMsg::ChangeBIP32Derivation(update) => PsbtOutputMsg::ChangeBIP32Derivation(
                update.apply_to(&mut psbt_output.bip32_derivation),
            ),
        }
    }
}

/// A message to the editor: an operation on the document, or the request
/// to take one back or to make it again.
#[derive(Clone, Debug)]
pub enum PsbtMessage {
    /// Put this document, or none, in place of the one that is loaded.
    ChangePsbt(Option<PartiallySignedTransaction>),
    /// Change the input record at this position.
    ChangeInput(usize, PsbtInputMsg),
    /// Change the output record at this position.
    ChangeOutput(usize, PsbtOutputMsg),
    Undo,
    Redo,
    /// Change nothing.
    NoOp,
}

/// A message as a mathematical value.
pub enum PsbtMessageView {
    ChangePsbt(Option<DocumentView>),
    ChangeInput(usize, PsbtInputMsgView),
    ChangeOutput(usize, PsbtOutputMsgView),
    Undo,
    Redo,
    NoOp,
}

impl DeepView for PsbtMessage {
    type V = PsbtMessageView;

    open spec fn deep_view(&self) -> PsbtMessageView {
        match self {
            PsbtMessage::ChangePsbt(document) => PsbtMessageView::ChangePsbt(document.deep_view()),
            PsbtMessage::ChangeInput(index, msg) => PsbtMessageView::ChangeInput(
                *index,
                msg.deep_view(),
            ),
            PsbtMessage::ChangeOutput(index, msg) => PsbtMessageView::ChangeOutput(
                *index,
                msg.deep_view(),
            ),
            PsbtMessage::Undo => PsbtMessageView::Undo,
            PsbtMessage::Redo => PsbtMessageView::Redo,
            PsbtMessage::NoOp => PsbtMessageView::NoOp,
        }
    }
}

/// What a message makes of the document, and the message that takes it
/// back. A change to a record that is not there, because no document is
/// loaded or because it has fewer records, changes nothing and is taken
/// back by `NoOp`; so are `Undo`, `Redo` and `NoOp`.
pub open spec fn apply_message(msg: PsbtMessageView, document: Option<DocumentView>) -> (
    Option<DocumentView>,
    PsbtMessageView,
) {
    match msg {
        PsbtMessageView::ChangePsbt(new) => (new, PsbtMessageView::ChangePsbt(document)),
        PsbtMessageView::ChangeInput(index, change) => match document {
            Some(d) => if index < d.inputs.len() {
                let (record, back) = apply_input(change, d.inputs[index as int]);
                (
                    Some(DocumentView { inputs: d.inputs.update(index as int, record), ..d }),
                    PsbtMessageView::ChangeInput(index, back),
                )
            } else {
                (document, PsbtMessageView::NoOp)
            },
            None => (document, PsbtMessageView::NoOp),
        },
        PsbtMessageView::ChangeOutput(index, change) => match document {
            Some(d) => if index < d.outputs.len() {
                let (record, back) = apply_output(change, d.outputs[index as int]);
                (
                    Some(DocumentView { outputs: d.outputs.update(index as int, record), ..d }),
                    PsbtMessageView::ChangeOutput(index, back),
                )
            } else {
                (document, PsbtMessageView::NoOp)
            },
            None => (document, PsbtMessageView::NoOp),
        },
        _ => (document, PsbtMessageView::NoOp),
    }
}

impl PsbtMessage {
    /// Applies the message to the document and returns the message that
    /// takes it back.
    pub fn apply_to(self, psbt: &mut Option<PartiallySignedTransaction>) -> (back: PsbtMessage)
        ensures
            (final(psbt).deep_view(), back.deep_view()) == apply_message(
                self.deep_view(),
                old(psbt).deep_view(),
            ),
    {
        match self {
            PsbtMessage::ChangePsbt(new_psbt) => {
                let mut content = new_psbt;
                std::mem::swap(psbt, &mut content);
                PsbtMessage::ChangePsbt(content)
            },
            PsbtMessage::ChangeInput(index, msg) => match psbt {
                Some(document) => if index < document.inputs.len() {
                    let ghost before = document.inputs.deep_view();
                    let back = msg.apply_to(&mut document.inputs[index]);
                    assert(document.inputs.deep_view() =~= before.update(
                        index as int,
                        document.inputs@[index as int].deep_view(),
                    ));
                    PsbtMessage::ChangeInput(index, back)
                } else {
                    PsbtMessage::NoOp
                },
                None => PsbtMessage::NoOp,
            },
            PsbtMessage::ChangeOutput(index, msg) => match psbt {
                Some(document) => if index < document.outputs.len() {
                    let ghost before = document.outputs.deep_view();
                    let back = msg.apply_to(&mut document.outputs[index]);
                    assert(document.outputs.deep_view() =~= before.update(
                        index as int,
                        document.outputs@[index as int].deep_view(),
                    ));
                    PsbtMessage::ChangeOutput(index, back)
                } else {
                    PsbtMessage::NoOp
                },
                None => PsbtMessage::NoOp,
            },
            _ => PsbtMessage::NoOp,
        }
    }
}

/// Applying the change that an application returned brings back the input
/// record, and returns the change that was applied.
pub proof fn lemma_input_inverts(msg: PsbtInputMsgView, record: InputView)
    ensures
        apply_input(apply_input(msg, record).1, apply_input(msg, record).0) == (record, msg),
{
    match msg {
        PsbtInputMsgView::ChangePartialSigs(u) => {
            lemma_update_inverts(u, record.partial_sigs);
        },
        PsbtInputMsgView::ChangeBIP32Derivation(u) => {
            lemma_update_inverts(u, record.bip32_derivation);
        },
        _ => {},
    }
}

/// Applying the change that an application returned brings back the output
/// record, and returns the change that was applied.
pub proof fn lemma_output_inverts(msg: PsbtOutputMsgView, record: OutputView)
    ensures
        apply_output(apply_output(msg, record).1, apply_output(msg, record).0) == (record, msg),
{
    match msg {
        PsbtOutputMsgView::ChangeBIP32Derivation(u) => {
            lemma_update_inverts(u, record.bip32_derivation);
        },
        _ => {},
    }
}

/// Whether the message finds what it is aimed at: it replaces the document
/// or changes nothing, or the record that it changes is there.
pub open spec fn resolves(msg: PsbtMessageView, document: Option<DocumentView>) -> bool {
    match msg {
        PsbtMessageView::ChangePsbt(_) => true,
        PsbtMessageView::ChangeInput(index, _) => document is Some && index
            < document.unwrap().inputs.len(),
        PsbtMessageView::ChangeOutput(index, _) => document is Some && index
            < document.unwrap().outputs.len(),
        PsbtMessageView::NoOp => true,
        _ => false,
    }
}

/// Whatever the message and the document, applying the message that an
/// application returned brings back the document as it was.
pub proof fn lemma_message_restores(msg: PsbtMessageView, document: Option<DocumentView>)
    ensures
        apply_message(apply_message(msg, document).1, apply_message(msg, document).0).0
            == document,
        resolves(apply_message(msg, document).1, apply_message(msg, document).0),
{
    if resolves(msg, document) {
        lemma_message_inverts(msg, document);
    }
}

/// Where the message finds what it is aimed at, applying the message that
/// an application returned also returns the message that was applied: the
/// two take turns.
pub proof fn lemma_message_inverts(msg: PsbtMessageView, document: Option<DocumentView>)
    requires
        resolves(msg, document),
    ensures
        apply_message(apply_message(msg, document).1, apply_message(msg, document).0) == (
            document,
            msg,
        ),
        resolves(apply_message(msg, document).1, apply_message(msg, document).0),
{
    let (after, back) = apply_message(msg, document);
    match msg {
        PsbtMessageView::ChangeInput(index, change) => {
            let d = document.unwrap();
            lemma_input_inverts(change, d.inputs[index as int]);
            let restored = apply_message(back, after).0.unwrap();
            assert(restored.inputs =~= d.inputs);
        },
        PsbtMessageView::ChangeOutput(index, change) => {
            let d = document.unwrap();
            lemma_output_inverts(change, d.outputs[index as int]);
            let restored = apply_message(back, after).0.unwrap();
            assert(restored.outputs =~= d.outputs);
        },
        _ => {},
    }
}

/// Moving an entry to another key takes it out under the first key and
/// puts it under the second as one change.
pub open spec fn renaming<K, V>(from: K, to: K, value: V) -> MapUpdate<K, V> {
    MapUpdate::Both(Box::new(MapUpdate::Remove(from)), Box::new(MapUpdate::Insert(to, value)))
}

/// After an entry was moved to another key, it stands under that key and,
/// where the keys differ, no longer under the first; and the change
/// returned brings back the mapping as it was. Where nothing stood under
/// the other key, the change returned moves the entry back.
pub proof fn lemma_renaming<K, V>(map: Map<K, V>, from: K, to: K)
    requires
        map.contains_key(from),
    ensures
        ({
            let (after, back) = apply_update(renaming(from, to, map[from]), map);
            &&& after == map.remove(from).insert(to, map[from])
            &&& after.contains_key(to)
            &&& after[to] == map[from]
            &&& from != to ==> !after.contains_key(from)
            &&& apply_update(back, after) == (map, renaming(from, to, map[from]))
            &&& from != to && !map.contains_key(to) ==> back == renaming(to, from, map[from])
        }),
{
    let first = MapUpdate::<K, V>::Remove(from);
    let second = MapUpdate::Insert(to, map[from]);
    let between = apply_update(first, map).0;
    assert(between == map.remove(from));
    assert(apply_update(second, between).0 == between.insert(to, map[from]));
    assert(apply_update(renaming(from, to, map[from]), map).0 == apply_update(second, between).0);
    lemma_update_inverts(renaming(from, to, map[from]), map);
}

} // verus!
