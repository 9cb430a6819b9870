//! Bitcoin transactions.
use vstd::prelude::*;

use crate::crypto;

verus! {

/// A Bitcoin transaction.
#[derive(Debug)]
pub struct Transaction {
    /// The identifier by which the Bitcoin network knows the transaction.
    pub txid: crypto::Hash,
    /// The transaction as the Bitcoin network sends it.
    pub raw: Vec<u8>,
}

impl Transaction {
    /// The identifier of the transaction.
    pub fn id(&self) -> (id: crypto::Hash)
        ensures
            id == self.txid,
    {
        self.txid
    }
}

} // verus!
