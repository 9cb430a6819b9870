//! Keys and values of the signature tables.
use vstd::prelude::*;

use crate::crypto;
use crate::table::Key;

verus! {

/// One input of an anchoring transaction.
#[derive(Clone, Copy, Debug)]
pub struct TxInputId {
    /// The identifier of the transaction.
    pub txid: crypto::Hash,
    /// The index of the input.
    pub input: u32,
}

impl View for TxInputId {
    type V = (Seq<u8>, u32);

    open spec fn view(&self) -> (Seq<u8>, u32) {
        (self.txid@, self.input)
    }
}

impl Key for TxInputId {
    fn is_same(&self, other: &Self) -> (same: bool)
        ensures
            same == (self.txid.bytes@ == other.txid.bytes@ && self.input == other.input),
    {
        self.txid == other.txid && self.input == other.input
    }
}

/// The signatures that a validator gave for one input.
#[derive(Debug)]
pub struct InputSignatures {
    /// The signatures in their stored form.
    pub content: Vec<u8>,
}

} // verus!
