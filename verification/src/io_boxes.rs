//! What the summary boxes of inputs and outputs need beyond the records.

use crate::values::TxOut;
use vstd::prelude::*;

verus! {

/// What happened in a summary box.
#[derive(Debug, Clone)]
pub enum IOBoxMsg {
    /// The box is now expanded, or no longer.
    ToggleExpand(bool),
}

/// The amount that an input spends, as far as the record tells: that of
/// the output spent, where the record holds it; else that of the output at
/// position `vout` of the transaction spent from, where the record holds
/// that transaction, whose outputs' amounts are `spent_from`, and it has
/// such an output.
pub fn get_value(witness_utxo: &Option<TxOut>, spent_from: Option<&Vec<u64>>, vout: u32) -> (value:
    Option<u64>)
    ensures
        value == match (*witness_utxo, spent_from) {
            (Some(utxo), _) => Some(utxo.value),
            (None, Some(amounts)) => if vout < amounts.len() {
                Some(amounts[vout as int])
            } else {
                None
            },
            (None, None) => None,
        },
{
    if let Some(utxo) = witness_utxo {
        Some(utxo.value)
    } else if let Some(amounts) = spent_from {
        let position = vout as usize;
        if position < amounts.len() {
            Some(amounts[position])
        } else {
            None
        }
    } else {
        None
    }
}

} // verus!
