//! The document that is edited: a partially signed transaction, as one
//! global record and one record for each input and each output.

use crate::keymap::KeyMap;
use crate::values::{KeySource, Script, SigHashType, Transaction, TxOut};
use vstd::prelude::*;

verus! {

/// The global record of `bitcoin`, carried through unread.
#[verifier::external_type_specification]
#[verifier::external_body]
pub struct ExGlobal(bitcoin::util::psbt::Global);

/// The input record of `bitcoin`, carried through unread.
#[verifier::external_type_specification]
#[verifier::external_body]
pub struct ExInput(bitcoin::util::psbt::Input);

/// The output record of `bitcoin`, carried through unread.
#[verifier::external_type_specification]
#[verifier::external_body]
pub struct ExOutput(bitcoin::util::psbt::Output);

/// `Clone::clone` of the global record of `bitcoin`; nothing is claimed of
/// the copy.
pub assume_specification[ <bitcoin::util::psbt::Global as Clone>::clone ](
    record: &bitcoin::util::psbt::Global,
) -> bitcoin::util::psbt::Global
;

/// `Clone::clone` of the input record of `bitcoin`; nothing is claimed of
/// the copy.
pub assume_specification[ <bitcoin::util::psbt::Input as Clone>::clone ](
    record: &bitcoin::util::psbt::Input,
) -> bitcoin::util::psbt::Input
;

/// `Clone::clone` of the output record of `bitcoin`; nothing is claimed of
/// the copy.
pub assume_specification[ <bitcoin::util::psbt::Output as Clone>::clone ](
    record: &bitcoin::util::psbt::Output,
) -> bitcoin::util::psbt::Output
;

/// What is known of one input of the transaction.
#[derive(Clone, Debug, PartialEq)]
pub struct InputRecord {
    /// The transaction that made the output spent here.
    pub non_witness_utxo: Option<Transaction>,
    /// The output spent here.
    pub witness_utxo: Option<TxOut>,
    /// The signatures given so far, by public key.
    pub partial_sigs: KeyMap<Vec<u8>>,
    /// What the signatures are to commit to.
    pub sighash_type: Option<SigHashType>,
    pub redeem_script: Option<Script>,
    pub witness_script: Option<Script>,
    /// Where each public key comes from.
    pub bip32_derivation: KeyMap<KeySource>,
    pub final_script_sig: Option<Script>,
    pub final_script_witness: Option<Vec<Vec<u8>>>,
    /// The record as it was read, for the entries that no field above
    /// stands for. Of those fields it may be out of date.
    pub other: bitcoin::util::psbt::Input,
}

/// An input as a mathematical value.
#[verifier::ext_equal]
pub struct InputView {
    pub non_witness_utxo: Option<Seq<u8>>,
    pub witness_utxo: Option<(u64, Seq<u8>)>,
    pub partial_sigs: Map<Seq<u8>, Seq<u8>>,
    pub sighash_type: Option<SigHashType>,
    pub redeem_script: Option<Seq<u8>>,
    pub witness_script: Option<Seq<u8>>,
    pub bip32_derivation: Map<Seq<u8>, (Seq<u8>, Seq<u32>)>,
    pub final_script_sig: Option<Seq<u8>>,
    pub final_script_witness: Option<Seq<Seq<u8>>>,
    pub other: bitcoin::util::psbt::Input,
}

impl DeepView for InputRecord {
    type V = InputView;

    open spec fn deep_view(&self) -> InputView {
        InputView {
            non_witness_utxo: self.non_witness_utxo.deep_view(),
            witness_utxo: self.witness_utxo.deep_view(),
            partial_sigs: self.partial_sigs.deep_view(),
            sighash_type: self.sighash_type,
            redeem_script: self.redeem_script.deep_view(),
            witness_script: self.witness_script.deep_view(),
            bip32_derivation: self.bip32_derivation.deep_view(),
            final_script_sig: self.final_script_sig.deep_view(),
            final_script_witness: self.final_script_witness.deep_view(),
            other: self.other,
        }
    }
}

/// What is known of one output of the transaction.
#[derive(Clone, Debug, PartialEq)]
pub struct OutputRecord {
    pub redeem_script: Option<Script>,
    pub witness_script: Option<Script>,
    /// Where each public key comes from.
    pub bip32_derivation: KeyMap<KeySource>,
    /// The record as it was read, for the entries that no field above
    /// stands for. Of those fields it may be out of date.
    pub other: bitcoin::util::psbt::Output,
}

/// An output as a mathematical value.
#[verifier::ext_equal]
pub struct OutputView {
    pub redeem_script: Option<Seq<u8>>,
    pub witness_script: Option<Seq<u8>>,
    pub bip32_derivation: Map<Seq<u8>, (Seq<u8>, Seq<u32>)>,
    pub other: bitcoin::util::psbt::Output,
}

impl DeepView for OutputRecord {
    type V = OutputView;

    open spec fn deep_view(&self) -> OutputView {
        OutputView {
            redeem_script: self.redeem_script.deep_view(),
            witness_script: self.witness_script.deep_view(),
            bip32_derivation: self.bip32_derivation.deep_view(),
            other: self.other,
        }
    }
}

/// A partially signed transaction. The records of the inputs and of the
/// outputs are found by their position, which holds only as long as the
/// same document is loaded.
#[derive(Clone, Debug, PartialEq)]
pub struct PartiallySignedTransaction {
    pub global: bitcoin::util::psbt::Global,
    pub inputs: Vec<InputRecord>,
    pub outputs: Vec<OutputRecord>,
}

/// A document as a mathematical value.
#[verifier::ext_equal]
pub struct DocumentView {
    pub global: bitcoin::util::psbt::Global,
    pub inputs: Seq<InputView>,
    pub outputs: Seq<OutputView>,
}

impl DeepView for PartiallySignedTransaction {
    type V = DocumentView;

    open spec fn deep_view(&self) -> DocumentView {
        DocumentView {
            global: self.global,
            inputs: self.inputs.deep_view(),
            outputs: self.outputs.deep_view(),
        }
    }
}

} // verus!
