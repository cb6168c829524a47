//! The calls into the `bitcoin` crate that read and write the binary and
//! textual encodings of transactions, outputs, witnesses, keys and paths.
//!
//! Nothing here is proved: each function holds one call and states what the
//! crate's source shows of it. Where the result of a call is too long to
//! write down, it has a name, and the contract says only that the call
//! returns what the name stands for.
//!
//! The consensus decoder turns the lengths that it reads into `usize` and
//! bounds the number of items by their size in memory, so on contrived data
//! what it accepts depends on the width of `usize`. The names of its results
//! therefore take that width beside the data.

use crate::hex::hex_decoding;
use bitcoin::hashes::hex::FromHex;
use std::str::FromStr;
use vstd::prelude::*;

verus! {

/// The error of `bitcoin::consensus::encode`, carried through unread.
#[verifier::external_type_specification]
#[verifier::external_body]
pub struct ExEncodeError(bitcoin::consensus::encode::Error);

/// The error of `bitcoin::util::key`, carried through unread.
#[verifier::external_type_specification]
#[verifier::external_body]
pub struct ExKeyError(bitcoin::util::key::Error);

/// The error of `bitcoin::util::bip32`, carried through unread.
#[verifier::external_type_specification]
#[verifier::external_body]
pub struct ExBip32Error(bitcoin::util::bip32::Error);

/// The amount and script of the output that `data` is the whole consensus
/// encoding of, or `None` where it is the encoding of none, on a machine
/// whose `usize` has `width` bits.
pub uninterp spec fn txout_decoding(data: Seq<u8>, width: nat) -> Option<(u64, Seq<u8>)>;

/// The consensus encoding of an output with this amount and script.
pub uninterp spec fn txout_encoding(value: u64, script_pubkey: Seq<u8>) -> Seq<u8>;

/// The consensus encoding, written anew, of the transaction that `data` is
/// the whole consensus encoding of, or `None` where it is the encoding of
/// none, on a machine whose `usize` has `width` bits.
pub uninterp spec fn transaction_decoding(data: Seq<u8>, width: nat) -> Option<Seq<u8>>;

/// The witness stack that `data` is the whole consensus encoding of, or
/// `None` where it is the encoding of none, on a machine whose `usize` has
/// `width` bits.
pub uninterp spec fn witness_decoding(data: Seq<u8>, width: nat) -> Option<Seq<Seq<u8>>>;

/// The consensus encoding of a witness stack.
pub uninterp spec fn witness_encoding(items: Seq<Seq<u8>>) -> Seq<u8>;

/// The serialization, written anew, of the public key that `data` is a
/// serialization of, or `None` where it is the serialization of none.
pub uninterp spec fn public_key_decoding(data: Seq<u8>) -> Option<Seq<u8>>;

/// The steps of the derivation path that `text` spells, or `None` where it
/// spells none.
pub uninterp spec fn derivation_path_decoding(text: Seq<char>) -> Option<Seq<u32>>;

/// The text of a derivation path.
pub uninterp spec fn derivation_path_text(path: Seq<u32>) -> Seq<char>;

/// Calls `bitcoin::consensus::encode::deserialize` for a `TxOut` and hands
/// out its two fields.
#[verifier::external_body]
pub(crate) fn decode_txout(data: &[u8]) -> (output: Result<
    (u64, Vec<u8>),
    bitcoin::consensus::encode::Error,
>)
    ensures
        match output {
            Ok(o) => txout_decoding(data@, usize::BITS as nat) == Some((o.0, o.1@)),
            Err(_) => txout_decoding(data@, usize::BITS as nat) is None,
        },
{
    let output: bitcoin::TxOut = bitcoin::consensus::encode::deserialize(data)?;
    Ok((output.value, output.script_pubkey.into_bytes()))
}

/// Calls `bitcoin::consensus::encode::serialize` on a `TxOut` of these two
/// fields.
#[verifier::external_body]
pub(crate) fn encode_txout(value: u64, script_pubkey: &[u8]) -> (data: Vec<u8>)
    ensures
        data@ == txout_encoding(value, script_pubkey@),
{
    let script_pubkey = bitcoin::Script::from(script_pubkey.to_vec());
    bitcoin::consensus::encode::serialize(&bitcoin::TxOut { value, script_pubkey })
}

/// Calls `bitcoin::consensus::encode::deserialize` for a `Transaction` and
/// hands out what `serialize` writes of it.
#[verifier::external_body]
pub(crate) fn decode_transaction(data: &[u8]) -> (encoded: Result<
    Vec<u8>,
    bitcoin::consensus::encode::Error,
>)
    ensures
        match encoded {
            Ok(e) => transaction_decoding(data@, usize::BITS as nat) == Some(e@),
            Err(_) => transaction_decoding(data@, usize::BITS as nat) is None,
        },
{
    let transaction: bitcoin::Transaction = bitcoin::consensus::encode::deserialize(data)?;
    Ok(bitcoin::consensus::encode::serialize(&transaction))
}

/// Calls `bitcoin::consensus::encode::deserialize` for a vector of byte
/// vectors.
#[verifier::external_body]
pub(crate) fn decode_witness(data: &[u8]) -> (items: Result<
    Vec<Vec<u8>>,
    bitcoin::consensus::encode::Error,
>)
    ensures
        match items {
            Ok(w) => witness_decoding(data@, usize::BITS as nat) == Some(w.deep_view()),
            Err(_) => witness_decoding(data@, usize::BITS as nat) is None,
        },
{
    bitcoin::consensus::encode::deserialize(data)
}

/// Calls `bitcoin::consensus::encode::serialize` on a vector of byte
/// vectors.
#[verifier::external_body]
pub(crate) fn encode_witness(items: &Vec<Vec<u8>>) -> (data: Vec<u8>)
    ensures
        data@ == witness_encoding(items.deep_view()),
{
    bitcoin::consensus::encode::serialize(items)
}

/// Calls `bitcoin::PublicKey::from_slice` and hands out what `to_bytes`
/// writes of the key.
#[verifier::external_body]
pub(crate) fn decode_public_key(data: &[u8]) -> (bytes: Result<
    Vec<u8>,
    bitcoin::util::key::Error,
>)
    ensures
        match bytes {
            Ok(b) => public_key_decoding(data@) == Some(b@),
            Err(_) => public_key_decoding(data@) is None,
        },
{
    Ok(bitcoin::PublicKey::from_slice(data)?.to_bytes())
}

/// Calls `FromHex::from_hex` for `bitcoin::util::bip32::Fingerprint`, which
/// succeeds exactly on the hexadecimal text of four bytes.
#[verifier::external_body]
pub(crate) fn fingerprint_from_hex(text: &str) -> (bytes: Result<
    [u8; 4],
    bitcoin::hashes::hex::Error,
>)
    ensures
        match bytes {
            Ok(b) => hex_decoding(text@) == Some(b@),
            Err(_) => match hex_decoding(text@) {
                Some(d) => d.len() != 4,
                None => true,
            },
        },
{
    Ok(bitcoin::util::bip32::Fingerprint::from_hex(text)?.into_bytes())
}

/// Calls `FromStr::from_str` for `bitcoin::util::bip32::DerivationPath` and
/// hands out each step as the number that `u32::from` makes of it.
#[verifier::external_body]
pub(crate) fn parse_derivation_path(text: &str) -> (path: Result<
    Vec<u32>,
    bitcoin::util::bip32::Error,
>)
    ensures
        match path {
            Ok(p) => derivation_path_decoding(text@) == Some(p@),
            Err(_) => derivation_path_decoding(text@) is None,
        },
{
    let path = bitcoin::util::bip32::DerivationPath::from_str(text)?;
    Ok((&path).into_iter().map(|step| u32::from(*step)).collect())
}

/// Calls `to_string` on the `bitcoin::util::bip32::DerivationPath` whose
/// steps `ChildNumber::from` makes of these numbers.
#[verifier::external_body]
pub(crate) fn derivation_path_to_string(path: &[u32]) -> (text: String)
    ensures
        text@ == derivation_path_text(path@),
{
    let steps: Vec<bitcoin::util::bip32::ChildNumber> =
        path.iter().map(|step| bitcoin::util::bip32::ChildNumber::from(*step)).collect();
    bitcoin::util::bip32::DerivationPath::from(steps).to_string()
}

} // verus!
