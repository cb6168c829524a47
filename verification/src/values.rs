//! The values that the fields of a partially signed transaction hold, as
//! plain data.

use crate::encoding::{
    decode_public_key, decode_transaction, public_key_decoding, transaction_decoding,
};
use vstd::prelude::*;

verus! {

/// A script: its bytes, with no rule on what they hold.
#[derive(Clone, Debug, PartialEq, Eq)]
pub struct Script(pub Vec<u8>);

impl DeepView for Script {
    type V = Seq<u8>;

    open spec fn deep_view(&self) -> Seq<u8> {
        self.0@
    }
}

/// A transaction output: an amount in satoshis and the script that locks it.
#[derive(Clone, Debug, PartialEq, Eq)]
pub struct TxOut {
    pub value: u64,
    pub script_pubkey: Script,
}

impl DeepView for TxOut {
    type V = (u64, Seq<u8>);

    open spec fn deep_view(&self) -> (u64, Seq<u8>) {
        (self.value, self.script_pubkey.0@)
    }
}

/// A whole transaction, held as its consensus encoding. The only way to
/// one is to decode it, so the bytes held are always what the decoder made
/// of some data.
#[derive(Debug, PartialEq, Eq)]
pub struct Transaction {
    encoded: Vec<u8>,
}

impl DeepView for Transaction {
    type V = Seq<u8>;

    closed spec fn deep_view(&self) -> Seq<u8> {
        self.encoded@
    }
}

impl Transaction {
    /// The bytes held are what some data decodes to.
    #[verifier::type_invariant]
    spec fn is_encoding(self) -> bool {
        exists|data: Seq<u8>| #[trigger]
            transaction_decoding(data, usize::BITS as nat) == Some(self.encoded@)
    }

    /// Reads a transaction from its whole consensus encoding.
    pub fn decode(data: &[u8]) -> (transaction: Result<Transaction, bitcoin::consensus::encode::Error>)
        ensures
            match transaction {
                Ok(t) => transaction_decoding(data@, usize::BITS as nat) == Some(t.deep_view()),
                Err(_) => transaction_decoding(data@, usize::BITS as nat) is None,
            },
    {
        match decode_transaction(data) {
            Ok(encoded) => Ok(Transaction { encoded }),
            Err(e) => Err(e),
        }
    }

    /// The consensus encoding of the transaction, which is what some data
    /// decodes to.
    pub fn encoded(&self) -> (bytes: &Vec<u8>)
        ensures
            bytes@ == self.deep_view(),
            exists|data: Seq<u8>| #[trigger]
                transaction_decoding(data, usize::BITS as nat) == Some(bytes@),
    {
        proof {
            use_type_invariant(self);
        }
        &self.encoded
    }
}

impl Clone for Transaction {
    fn clone(&self) -> (copy: Self)
        ensures
            copy.deep_view() == self.deep_view(),
    {
        proof {
            use_type_invariant(self);
        }
        let encoded = self.encoded.clone();
        assert(encoded@ =~= self.encoded@);
        Transaction { encoded }
    }
}

/// An ECDSA public key, held as its serialization: 33 bytes where it is
/// compressed, 65 where it is not. The only way to one is to read it, so
/// the bytes held are always what the reader made of some data.
#[derive(Debug, PartialEq, Eq)]
pub struct PublicKey {
    bytes: Vec<u8>,
}

impl DeepView for PublicKey {
    type V = Seq<u8>;

    closed spec fn deep_view(&self) -> Seq<u8> {
        self.bytes@
    }
}

impl PublicKey {
    /// The bytes held are what some data decodes to.
    #[verifier::type_invariant]
    spec fn is_serialization(self) -> bool {
        exists|data: Seq<u8>| #[trigger] public_key_decoding(data) == Some(self.bytes@)
    }

    /// Reads a key from its serialization, compressed or not.
    pub fn from_slice(data: &[u8]) -> (key: Result<PublicKey, bitcoin::util::key::Error>)
        ensures
            match key {
                Ok(k) => public_key_decoding(data@) == Some(k.deep_view()),
                Err(_) => public_key_decoding(data@) is None,
            },
    {
        match decode_public_key(data) {
            Ok(bytes) => Ok(PublicKey { bytes }),
            Err(e) => Err(e),
        }
    }

    /// The serialization of the key, which is what some data reads as.
    pub fn to_bytes(&self) -> (bytes: &Vec<u8>)
        ensures
            bytes@ == self.deep_view(),
            exists|data: Seq<u8>| #[trigger] public_key_decoding(data) == Some(bytes@),
    {
        proof {
            use_type_invariant(self);
        }
        &self.bytes
    }
}

impl Clone for PublicKey {
    fn clone(&self) -> (copy: Self)
        ensures
            copy.deep_view() == self.deep_view(),
    {
        proof {
            use_type_invariant(self);
        }
        let bytes = self.bytes.clone();
        assert(bytes@ =~= self.bytes@);
        PublicKey { bytes }
    }
}

/// The first four bytes of the hash of a master key.
#[derive(Clone, Copy, Debug, PartialEq, Eq)]
pub struct Fingerprint(pub [u8; 4]);

impl DeepView for Fingerprint {
    type V = Seq<u8>;

    open spec fn deep_view(&self) -> Seq<u8> {
        self.0@
    }
}

/// A derivation path below a master key: one number per step, with the top
/// bit set on a hardened step.
#[derive(Clone, Debug, PartialEq, Eq)]
pub struct DerivationPath(pub Vec<u32>);

impl DeepView for DerivationPath {
    type V = Seq<u32>;

    open spec fn deep_view(&self) -> Seq<u32> {
        self.0@
    }
}

/// Where a key comes from: a master key's fingerprint and the path from it.
pub type KeySource = (Fingerprint, DerivationPath);

/// Which parts of a transaction a signature commits to.
#[derive(Clone, Copy, Debug, PartialEq, Eq, Structural)]
pub enum SigHashType {
    /// Every input and every output.
    All,
    /// Every input and no output.
    NoOutputs,
    /// Every input and the output of the same index.
    Single,
    /// As `All`, of the signed input alone.
    AllPlusAnyoneCanPay,
    /// As `NoOutputs`, of the signed input alone.
    NoOutputsPlusAnyoneCanPay,
    /// As `Single`, of the signed input alone.
    SinglePlusAnyoneCanPay,
}

impl DeepView for SigHashType {
    type V = SigHashType;

    open spec fn deep_view(&self) -> SigHashType {
        *self
    }
}

} // verus!
