//! The codecs of the values that a partially signed transaction holds.

use crate::encoding::{
    decode_txout, decode_witness, derivation_path_decoding, derivation_path_text,
    derivation_path_to_string, encode_txout, encode_witness, fingerprint_from_hex,
    parse_derivation_path, public_key_decoding, transaction_decoding, txout_decoding,
    txout_encoding, witness_decoding, witness_encoding,
};
use crate::fields::{
    has_blank, lemma_option_round_trips, round_trips, texts_in, texts_of, Field,
};
use crate::hex::{from_hex, hex_decoding, hex_encoding, lemma_hex_round_trip, to_hex};
use crate::values::{DerivationPath, Fingerprint, PublicKey, Script, Transaction, TxOut};
use vstd::prelude::*;

verus! {

/// Why a text was not read as a value: the stage that refused it, with what
/// that stage reported.
#[derive(Debug)]
pub enum ParseError {
    /// The text is not hexadecimal, or not of the length asked for.
    Hex(bitcoin::hashes::hex::Error),
    /// The bytes are not the consensus encoding of the value.
    Encode(bitcoin::consensus::encode::Error),
    /// The bytes are not a public key.
    Key(bitcoin::util::key::Error),
    /// The text is not a derivation path.
    BIP32(bitcoin::util::bip32::Error),
}

impl From<bitcoin::hashes::hex::Error> for ParseError {
    fn from(e: bitcoin::hashes::hex::Error) -> (error: Self) {
        ParseError::Hex(e)
    }
}

impl vstd::std_specs::convert::FromSpecImpl<bitcoin::hashes::hex::Error> for ParseError {
    open spec fn obeys_from_spec() -> bool {
        true
    }

    open spec fn from_spec(e: bitcoin::hashes::hex::Error) -> Self {
        ParseError::Hex(e)
    }
}

impl From<bitcoin::consensus::encode::Error> for ParseError {
    fn from(e: bitcoin::consensus::encode::Error) -> (error: Self) {
        ParseError::Encode(e)
    }
}

impl vstd::std_specs::convert::FromSpecImpl<bitcoin::consensus::encode::Error> for ParseError {
    open spec fn obeys_from_spec() -> bool {
        true
    }

    open spec fn from_spec(e: bitcoin::consensus::encode::Error) -> Self {
        ParseError::Encode(e)
    }
}

impl From<bitcoin::util::key::Error> for ParseError {
    fn from(e: bitcoin::util::key::Error) -> (error: Self) {
        ParseError::Key(e)
    }
}

impl vstd::std_specs::convert::FromSpecImpl<bitcoin::util::key::Error> for ParseError {
    open spec fn obeys_from_spec() -> bool {
        true
    }

    open spec fn from_spec(e: bitcoin::util::key::Error) -> Self {
        ParseError::Key(e)
    }
}

impl From<bitcoin::util::bip32::Error> for ParseError {
    fn from(e: bitcoin::util::bip32::Error) -> (error: Self) {
        ParseError::BIP32(e)
    }
}

impl vstd::std_specs::convert::FromSpecImpl<bitcoin::util::bip32::Error> for ParseError {
    open spec fn obeys_from_spec() -> bool {
        true
    }

    open spec fn from_spec(e: bitcoin::util::bip32::Error) -> Self {
        ParseError::BIP32(e)
    }
}

/// Raw bytes show as their hexadecimal text.
impl Field<1> for Vec<u8> {
    type DeserializeError = ParseError;

    open spec fn encoding(value: Seq<u8>) -> Seq<Seq<char>> {
        seq![hex_encoding(value)]
    }

    open spec fn decoding(texts: Seq<Seq<char>>) -> Option<Seq<u8>> {
        hex_decoding(texts[0])
    }

    fn serialize(&self) -> (texts: [String; 1]) {
        let texts = [to_hex(self.as_slice())];
        assert(self.deep_view() =~= self@);
        assert(texts_of(texts) =~= Self::encoding(self.deep_view()));
        texts
    }

    fn deserialize(s: [&str; 1]) -> (value: Result<Self, ParseError>)
        ensures
            value is Err ==> value matches Err(ParseError::Hex(_)),
    {
        match from_hex(s[0]) {
            Ok(bytes) => {
                assert(bytes.deep_view() =~= bytes@);
                Ok(bytes)
            },
            Err(e) => Err(ParseError::Hex(e)),
        }
    }
}

/// A script shows as the hexadecimal text of its bytes.
impl Field<1> for Script {
    type DeserializeError = ParseError;

    open spec fn encoding(value: Seq<u8>) -> Seq<Seq<char>> {
        seq![hex_encoding(value)]
    }

    open spec fn decoding(texts: Seq<Seq<char>>) -> Option<Seq<u8>> {
        hex_decoding(texts[0])
    }

    fn serialize(&self) -> (texts: [String; 1]) {
        let texts = [to_hex(self.0.as_slice())];
        assert(texts_of(texts) =~= Self::encoding(self.deep_view()));
        texts
    }

    fn deserialize(s: [&str; 1]) -> (value: Result<Self, ParseError>)
        ensures
            value is Err ==> value matches Err(ParseError::Hex(_)),
    {
        match from_hex(s[0]) {
            Ok(bytes) => Ok(Script(bytes)),
            Err(e) => Err(ParseError::Hex(e)),
        }
    }
}

/// An output shows as the hexadecimal text of its consensus encoding.
impl Field<1> for TxOut {
    type DeserializeError = ParseError;

    open spec fn encoding(value: (u64, Seq<u8>)) -> Seq<Seq<char>> {
        seq![hex_encoding(txout_encoding(value.0, value.1))]
    }

    open spec fn decoding(texts: Seq<Seq<char>>) -> Option<(u64, Seq<u8>)> {
        match hex_decoding(texts[0]) {
            Some(data) => txout_decoding(data, usize::BITS as nat),
            None => None,
        }
    }

    fn serialize(&self) -> (texts: [String; 1]) {
        let data = encode_txout(self.value, self.script_pubkey.0.as_slice());
        let texts = [to_hex(data.as_slice())];
        assert(texts_of(texts) =~= Self::encoding(self.deep_view()));
        texts
    }

    fn deserialize(s: [&str; 1]) -> (value: Result<Self, ParseError>)
        ensures
            value matches Err(ParseError::Hex(_)) <==> hex_decoding(texts_in(s)[0]) is None,
            value is Err ==> value matches Err(ParseError::Hex(_)) || value matches Err(
                ParseError::Encode(_),
            ),
    {
        match from_hex(s[0]) {
            Ok(data) => match decode_txout(data.as_slice()) {
                Ok(output) => Ok(TxOut { value: output.0, script_pubkey: Script(output.1) }),
                Err(e) => Err(ParseError::Encode(e)),
            },
            Err(e) => Err(ParseError::Hex(e)),
        }
    }
}

/// A transaction shows as the hexadecimal text of its consensus encoding.
impl Field<1> for Transaction {
    type DeserializeError = ParseError;

    open spec fn encoding(value: Seq<u8>) -> Seq<Seq<char>> {
        seq![hex_encoding(value)]
    }

    open spec fn decoding(texts: Seq<Seq<char>>) -> Option<Seq<u8>> {
        match hex_decoding(texts[0]) {
            Some(data) => transaction_decoding(data, usize::BITS as nat),
            None => None,
        }
    }

    fn serialize(&self) -> (texts: [String; 1]) {
        let texts = [to_hex(self.encoded().as_slice())];
        assert(texts_of(texts) =~= Self::encoding(self.deep_view()));
        texts
    }

    fn deserialize(s: [&str; 1]) -> (value: Result<Self, ParseError>)
        ensures
            value matches Err(ParseError::Hex(_)) <==> hex_decoding(texts_in(s)[0]) is None,
            value is Err ==> value matches Err(ParseError::Hex(_)) || value matches Err(
                ParseError::Encode(_),
            ),
    {
        match from_hex(s[0]) {
            Ok(data) => match Transaction::decode(data.as_slice()) {
                Ok(transaction) => Ok(transaction),
                Err(e) => Err(ParseError::Encode(e)),
            },
            Err(e) => Err(ParseError::Hex(e)),
        }
    }
}

/// A witness stack shows as the hexadecimal text of its consensus encoding.
impl Field<1> for Vec<Vec<u8>> {
    type DeserializeError = ParseError;

    open spec fn encoding(value: Seq<Seq<u8>>) -> Seq<Seq<char>> {
        seq![hex_encoding(witness_encoding(value))]
    }

    open spec fn decoding(texts: Seq<Seq<char>>) -> Option<Seq<Seq<u8>>> {
        match hex_decoding(texts[0]) {
            Some(data) => witness_decoding(data, usize::BITS as nat),
            None => None,
        }
    }

    fn serialize(&self) -> (texts: [String; 1]) {
        let data = encode_witness(self);
        let texts = [to_hex(data.as_slice())];
        assert(texts_of(texts) =~= Self::encoding(self.deep_view()));
        texts
    }

    fn deserialize(s: [&str; 1]) -> (value: Result<Self, ParseError>)
        ensures
            value matches Err(ParseError::Hex(_)) <==> hex_decoding(texts_in(s)[0]) is None,
            value is Err ==> value matches Err(ParseError::Hex(_)) || value matches Err(
                ParseError::Encode(_),
            ),
    {
        match from_hex(s[0]) {
            Ok(data) => match decode_witness(data.as_slice()) {
                Ok(items) => Ok(items),
                Err(e) => Err(ParseError::Encode(e)),
            },
            Err(e) => Err(ParseError::Hex(e)),
        }
    }
}

/// A public key shows as the hexadecimal text of its serialization.
impl Field<1> for PublicKey {
    type DeserializeError = ParseError;

    open spec fn encoding(value: Seq<u8>) -> Seq<Seq<char>> {
        seq![hex_encoding(value)]
    }

    open spec fn decoding(texts: Seq<Seq<char>>) -> Option<Seq<u8>> {
        match hex_decoding(texts[0]) {
            Some(data) => public_key_decoding(data),
            None => None,
        }
    }

    fn serialize(&self) -> (texts: [String; 1]) {
        let texts = [to_hex(self.to_bytes().as_slice())];
        assert(texts_of(texts) =~= Self::encoding(self.deep_view()));
        texts
    }

    fn deserialize(s: [&str; 1]) -> (value: Result<Self, ParseError>)
        ensures
            value matches Err(ParseError::Hex(_)) <==> hex_decoding(texts_in(s)[0]) is None,
            value is Err ==> value matches Err(ParseError::Hex(_)) || value matches Err(
                ParseError::Key(_),
            ),
    {
        match from_hex(s[0]) {
            Ok(data) => match PublicKey::from_slice(data.as_slice()) {
                Ok(key) => Ok(key),
                Err(e) => Err(ParseError::Key(e)),
            },
            Err(e) => Err(ParseError::Hex(e)),
        }
    }
}

/// The fingerprint that a text spells: the four bytes of its hexadecimal.
pub open spec fn fingerprint_decoding(text: Seq<char>) -> Option<Seq<u8>> {
    match hex_decoding(text) {
        Some(bytes) => if bytes.len() == 4 {
            Some(bytes)
        } else {
            None
        },
        None => None,
    }
}

/// A key source shows as two texts: the hexadecimal of the fingerprint, and
/// the path.
impl Field<2> for (Fingerprint, DerivationPath) {
    type DeserializeError = ParseError;

    open spec fn encoding(value: (Seq<u8>, Seq<u32>)) -> Seq<Seq<char>> {
        seq![hex_encoding(value.0), derivation_path_text(value.1)]
    }

    open spec fn decoding(texts: Seq<Seq<char>>) -> Option<(Seq<u8>, Seq<u32>)> {
        match (fingerprint_decoding(texts[0]), derivation_path_decoding(texts[1])) {
            (Some(fingerprint), Some(path)) => Some((fingerprint, path)),
            _ => None,
        }
    }

    fn serialize(&self) -> (texts: [String; 2]) {
        let texts = [to_hex(self.0.0.as_slice()), derivation_path_to_string(self.1.0.as_slice())];
        assert(texts_of(texts) =~= Self::encoding(self.deep_view()));
        texts
    }

    fn deserialize(s: [&str; 2]) -> (value: Result<Self, ParseError>)
        ensures
            value matches Err(ParseError::Hex(_)) <==> fingerprint_decoding(texts_in(s)[0]) is None,
            value is Err ==> value matches Err(ParseError::Hex(_)) || value matches Err(
                ParseError::BIP32(_),
            ),
    {
        let fingerprint = match fingerprint_from_hex(s[0]) {
            Ok(bytes) => Fingerprint(bytes),
            Err(e) => { return Err(ParseError::Hex(e)); },
        };
        match parse_derivation_path(s[1]) {
            Ok(path) => Ok((fingerprint, DerivationPath(path))),
            Err(e) => Err(ParseError::BIP32(e)),
        }
    }
}

/// Raw bytes are read back from their text.
pub proof fn lemma_bytes_round_trip(value: Seq<u8>)
    ensures
        round_trips::<Vec<u8>, 1>(value),
        value.len() > 0 ==> !has_blank(<Vec<u8> as Field<1>>::encoding(value)),
{
    lemma_hex_round_trip(value);
    if value.len() > 0 {
        assert(hex_encoding(value).len() == 2 * value.len());
    }
}

/// A script is read back from its text.
pub proof fn lemma_script_round_trip(value: Seq<u8>)
    ensures
        round_trips::<Script, 1>(value),
        value.len() > 0 ==> !has_blank(<Script as Field<1>>::encoding(value)),
{
    lemma_hex_round_trip(value);
    if value.len() > 0 {
        assert(hex_encoding(value).len() == 2 * value.len());
    }
}

/// A script that may be absent is read back from its text, unless it is
/// present and empty: the empty script shows as a blank text, and a blank
/// text reads as absent.
pub proof fn lemma_optional_script_round_trip(value: Option<Seq<u8>>)
    requires
        value matches Some(script) ==> script.len() > 0,
    ensures
        round_trips::<Option<Script>, 1>(value),
{
    if let Some(script) = value {
        lemma_script_round_trip(script);
    }
    lemma_option_round_trips::<Script, 1>(value);
}

/// An output is read back from its text where the consensus decoding reads
/// back what the consensus encoding wrote of it.
pub proof fn lemma_txout_round_trip(value: (u64, Seq<u8>))
    requires
        txout_decoding(txout_encoding(value.0, value.1), usize::BITS as nat) == Some(value),
    ensures
        round_trips::<TxOut, 1>(value),
{
    lemma_hex_round_trip(txout_encoding(value.0, value.1));
}

/// A transaction is read back from its text where the consensus decoding
/// of its encoding gives that encoding again.
pub proof fn lemma_transaction_round_trip(value: Seq<u8>)
    requires
        transaction_decoding(value, usize::BITS as nat) == Some(value),
    ensures
        round_trips::<Transaction, 1>(value),
{
    lemma_hex_round_trip(value);
}

/// A witness stack is read back from its text where the consensus decoding
/// reads back what the consensus encoding wrote of it.
pub proof fn lemma_witness_round_trip(value: Seq<Seq<u8>>)
    requires
        witness_decoding(witness_encoding(value), usize::BITS as nat) == Some(value),
    ensures
        round_trips::<Vec<Vec<u8>>, 1>(value),
{
    lemma_hex_round_trip(witness_encoding(value));
}

/// A public key is read back from its text where reading its serialization
/// gives that serialization again.
pub proof fn lemma_public_key_round_trip(value: Seq<u8>)
    requires
        public_key_decoding(value) == Some(value),
    ensures
        round_trips::<PublicKey, 1>(value),
{
    lemma_hex_round_trip(value);
}

/// A key source is read back from its texts where its fingerprint has four
/// bytes and its path is read back from the text of the path.
pub proof fn lemma_key_source_round_trip(value: (Seq<u8>, Seq<u32>))
    requires
        value.0.len() == 4,
        derivation_path_decoding(derivation_path_text(value.1)) == Some(value.1),
    ensures
        round_trips::<(Fingerprint, DerivationPath), 2>(value),
{
    lemma_hex_round_trip(value.0);
}

} // verus!
