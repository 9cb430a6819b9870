//! The information schema of the anchoring service: which indexes it keeps, what its state hash
//! consists of, and what its configuration says.
use vstd::prelude::*;

use crate::btc::Transaction;
use crate::config::{decodes, GlobalConfig, StoredConfiguration};
use crate::crypto;
use crate::storage::{
    Address, Fork, IndexAddress, ListIndex, SignatureIndex, Snapshot, SnapshotAccess,
    TransactionIndex,
};
use crate::BTC_ANCHORING_SERVICE_NAME;

verus! {

/// The name of the list of anchoring transactions.
pub const TRANSACTIONS_CHAIN: &'static str = "btc_anchoring.transactions_chain";

/// The name of the maps of signatures, one for each validator.
pub const TRANSACTION_SIGNATURES: &'static str = "btc_anchoring.transaction_signatures";

/// The name of the map of spent funding transactions.
pub const SPENT_FUNDING_TRANSACTIONS: &'static str = "btc_anchoring.spent_funding_transactions";

/// Where the list of anchoring transactions lies.
pub open spec fn transactions_chain_address() -> Address {
    Address { name: TRANSACTIONS_CHAIN@, family: None }
}

/// Where the map of spent funding transactions lies.
pub open spec fn spent_funding_transactions_address() -> Address {
    Address { name: SPENT_FUNDING_TRANSACTIONS@, family: None }
}

/// Where the signatures of the validator with the service key `validator` lie.
pub open spec fn transaction_signatures_address(validator: Seq<u8>) -> Address {
    Address { name: TRANSACTION_SIGNATURES@, family: Some(validator) }
}

/// The anchoring configuration that `configuration` stores, not yet decoded.
pub open spec fn stored_value(configuration: StoredConfiguration) -> Option<serde_json::Value> {
    if configuration.services@.contains_key(BTC_ANCHORING_SERVICE_NAME@) {
        Some(configuration.services@[BTC_ANCHORING_SERVICE_NAME@])
    } else {
        None
    }
}

/// Whether `config` is what `decode` makes of the anchoring configuration in `configuration`.
pub open spec fn decoded_from<
    D: Fn(&serde_json::Value) -> Result<GlobalConfig, serde_json::Error>,
>(decode: D, configuration: StoredConfiguration, config: GlobalConfig) -> bool {
    stored_value(configuration) matches Some(value) && decode.ensures((&value,), Ok(config))
}

/// The funding transaction of `config`, unless it is among the `spent` ones.
pub open spec fn unspent(
    config: GlobalConfig,
    spent: Map<Seq<u8>, Transaction>,
) -> Option<Transaction> {
    match config.funding_transaction {
        Some(transaction) => if spent.contains_key(transaction.txid@) {
            None
        } else {
            Some(transaction)
        },
        None => None,
    }
}

/// Whether `transaction` is the funding transaction that `state` makes available: that of the
/// actual configuration as `decode` reads it, unless it was spent.
pub open spec fn available_in<
    D: Fn(&serde_json::Value) -> Result<GlobalConfig, serde_json::Error>,
>(decode: D, state: Snapshot, transaction: Option<Transaction>) -> bool {
    exists|config: GlobalConfig|
        {
            &&& #[trigger] decoded_from(decode, state.actual(), config)
            &&& transaction == unspent(
                config,
                state.transaction_map(spent_funding_transactions_address()),
            )
        }
}

/// An index whose root is a part of the state hash.
pub enum StateTable<'s, T> {
    TransactionsChain(ListIndex<&'s T>),
    SpentFundingTransactions(TransactionIndex<&'s T>),
    TransactionSignatures(SignatureIndex<&'s T>),
}

/// Information schema of the anchoring service, over a database that `T` gives access to.
#[derive(Debug)]
pub struct BtcAnchoringSchema<T> {
    /// What the database is read through.
    pub snapshot: T,
}

impl<T> BtcAnchoringSchema<T> {
    /// Constructs schema for the given database `snapshot`.
    pub fn new(snapshot: T) -> (schema: Self)
        ensures
            schema.snapshot == snapshot,
    {
        BtcAnchoringSchema { snapshot }
    }

    /// The list of anchoring transactions.
    pub open spec fn chain_index(&self) -> ListIndex<&T> {
        ListIndex {
            address: IndexAddress { name: TRANSACTIONS_CHAIN, family: None },
            access: &self.snapshot,
        }
    }

    /// The map of spent funding transactions.
    pub open spec fn spent_index(&self) -> TransactionIndex<&T> {
        TransactionIndex {
            address: IndexAddress { name: SPENT_FUNDING_TRANSACTIONS, family: None },
            access: &self.snapshot,
        }
    }

    /// The map of signatures of the validator with the service key `validator`.
    pub open spec fn signatures_index(&self, validator: crypto::PublicKey) -> SignatureIndex<&T> {
        SignatureIndex {
            address: IndexAddress { name: TRANSACTION_SIGNATURES, family: Some(validator) },
            access: &self.snapshot,
        }
    }
}

impl<T: SnapshotAccess> BtcAnchoringSchema<T> {
    /// The database state that the schema reads.
    pub open spec fn state(&self) -> Snapshot {
        self.snapshot.snapshot()
    }

    /// The indexes whose roots make up the state hash: the chain, the spent funding transactions,
    /// and the signatures of each validator in the order of the actual configuration.
    pub open spec fn state_tables(&self) -> Seq<StateTable<'_, T>> {
        seq![
            StateTable::TransactionsChain(self.chain_index()),
            StateTable::SpentFundingTransactions(self.spent_index()),
        ] + Seq::new(
            self.state().actual().validator_keys@.len(),
            |i: int|
                StateTable::TransactionSignatures(
                    self.signatures_index(self.state().actual().validator_keys@[i].service_key),
                ),
        )
    }

    /// The list of anchoring transactions, in the order in which they were added.
    pub fn anchoring_transactions_chain(&self) -> (index: ListIndex<&T>)
        ensures
            index == self.chain_index(),
            index.address.name@ == "btc_anchoring.transactions_chain"@,
            index.address.family is None,
            *index.access == self.snapshot,
            index@ == self.state().list(transactions_chain_address()),
    {
        ListIndex {
            address: IndexAddress { name: TRANSACTIONS_CHAIN, family: None },
            access: &self.snapshot,
        }
    }

    /// The funding transactions that were spent, by their identifiers.
    pub fn spent_funding_transactions(&self) -> (index: TransactionIndex<&T>)
        ensures
            index == self.spent_index(),
            index.address.name@ == "btc_anchoring.spent_funding_transactions"@,
            index.address.family is None,
            *index.access == self.snapshot,
            index@ == self.state().transaction_map(spent_funding_transactions_address()),
    {
        TransactionIndex {
            address: IndexAddress { name: SPENT_FUNDING_TRANSACTIONS, family: None },
            access: &self.snapshot,
        }
    }

    /// The signatures that the validator with the service key `validator` gave, by the inputs
    /// that they are for.
    pub fn transaction_signatures(&self, validator: &crypto::PublicKey) -> (index: SignatureIndex<
        &T,
    >)
        ensures
            index == self.signatures_index(*validator),
            index.address.name@ == "btc_anchoring.transaction_signatures"@,
            index.address.family == Some(*validator),
            *index.access == self.snapshot,
            index@ == self.state().signature_map(transaction_signatures_address(validator@)),
    {
        SignatureIndex {
            address: IndexAddress { name: TRANSACTION_SIGNATURES, family: Some(*validator) },
            access: &self.snapshot,
        }
    }

    /// Returns hashes of the stored tables, given how the Merkle root of a table is computed.
    pub fn state_hash<'s, F: Fn(StateTable<'s, T>) -> crypto::Hash>(
        &'s self,
        merkle_root: F,
    ) -> (table_hashes: Vec<crypto::Hash>)
        requires
            forall|i: int|
                0 <= i < self.state_tables().len() ==> merkle_root.requires(
                    (#[trigger] self.state_tables()[i],),
                ),
        ensures
            table_hashes@.len() == self.state_tables().len(),
            forall|i: int|
                0 <= i < self.state_tables().len() ==> merkle_root.ensures(
                    (#[trigger] self.state_tables()[i],),
                    table_hashes@[i],
                ),
            table_hashes@.len() == self.snapshot.snapshot().actual().validator_keys@.len() + 2,
            merkle_root.ensures(
                (StateTable::TransactionsChain(
                    ListIndex {
                        address: IndexAddress { name: TRANSACTIONS_CHAIN, family: None },
                        access: &self.snapshot,
                    },
                ),),
                table_hashes@[0],
            ),
            merkle_root.ensures(
                (StateTable::SpentFundingTransactions(
                    TransactionIndex {
                        address: IndexAddress { name: SPENT_FUNDING_TRANSACTIONS, family: None },
                        access: &self.snapshot,
                    },
                ),),
                table_hashes@[1],
            ),
            forall|i: int|
                0 <= i < self.snapshot.snapshot().actual().validator_keys@.len()
                    ==> merkle_root.ensures(
                    (StateTable::TransactionSignatures(
                        SignatureIndex {
                            address: IndexAddress {
                                name: TRANSACTION_SIGNATURES,
                                family: Some(
                                    (#[trigger] self.snapshot.snapshot().actual().validator_keys@[i]).service_key,
                                ),
                            },
                            access: &self.snapshot,
                        },
                    ),),
                    table_hashes@[i + 2],
                ),
    {
        let ghost tables = self.state_tables();
        assert(tables[0] == StateTable::TransactionsChain(self.chain_index()));
        assert(tables[1] == StateTable::SpentFundingTransactions(self.spent_index()));
        let chain_root = merkle_root(
            StateTable::TransactionsChain(self.anchoring_transactions_chain()),
        );
        let spent_root = merkle_root(
            StateTable::SpentFundingTransactions(self.spent_funding_transactions()),
        );
        let mut table_hashes: Vec<crypto::Hash> = vec![chain_root, spent_root];
        let validator_keys = &self.snapshot.as_snapshot().actual_configuration().validator_keys;
        let mut i: usize = 0;
        while i < validator_keys.len()
            invariant
                i <= validator_keys.len(),
                *validator_keys == self.state().actual().validator_keys,
                tables == self.state_tables(),
                table_hashes@.len() == i + 2,
                forall|j: int|
                    0 <= j < tables.len() ==> merkle_root.requires((#[trigger] tables[j],)),
                forall|j: int|
                    0 <= j < i + 2 ==> merkle_root.ensures(
                        (#[trigger] tables[j],),
                        table_hashes@[j],
                    ),
            decreases validator_keys.len() - i,
        {
            let service_key = validator_keys[i].service_key;
            assert(tables[i + 2] == StateTable::TransactionSignatures(
                self.signatures_index(service_key),
            ));
            table_hashes.push(
                merkle_root(
                    StateTable::TransactionSignatures(self.transaction_signatures(&service_key)),
                ),
            );
            i = i + 1;
        }
        assert forall|k: int| 0 <= k < validator_keys@.len() implies merkle_root.ensures(
            (StateTable::TransactionSignatures(
                self.signatures_index((#[trigger] validator_keys@[k]).service_key),
            ),),
            table_hashes@[k + 2],
        ) by {
            assert(tables[k + 2] == StateTable::TransactionSignatures(
                self.signatures_index(validator_keys@[k].service_key),
            ));
        }
        table_hashes
    }

    /// Finds the anchoring configuration in `configuration` and decodes it.
    pub fn decode_config<D: Fn(&serde_json::Value) -> Result<GlobalConfig, serde_json::Error>>(
        configuration: &StoredConfiguration,
        decode: D,
    ) -> (config: Option<Result<GlobalConfig, serde_json::Error>>)
        requires
            stored_value(*configuration) matches Some(value) ==> decode.requires((&value,)),
        ensures
            match config {
                Some(decoded) => {
                    &&& stored_value(*configuration) matches Some(value)
                    &&& decode.ensures((&value,), decoded)
                },
                None => stored_value(*configuration) is None,
            },
            config is Some == configuration.services@.contains_key("btc_anchoring"@),
            config matches Some(decoded) ==> decode.ensures(
                (&configuration.services@["btc_anchoring"@],),
                decoded,
            ),
    {
        let name = BTC_ANCHORING_SERVICE_NAME.to_owned();
        match configuration.services.get(&name) {
            Some(value) => Some(decode(value)),
            None => None,
        }
    }

    /// The anchoring configuration in `configuration`, where there is one.
    pub fn parse_config<D: Fn(&serde_json::Value) -> Result<GlobalConfig, serde_json::Error>>(
        configuration: &StoredConfiguration,
        decode: D,
    ) -> (config: Option<GlobalConfig>)
        requires
            stored_value(*configuration) matches Some(value) ==> decodes(decode, value),
        ensures
            match config {
                Some(c) => decoded_from(decode, *configuration, c),
                None => stored_value(*configuration) is None,
            },
            config is Some == configuration.services@.contains_key("btc_anchoring"@),
            config matches Some(c) ==> decode.ensures(
                (&configuration.services@["btc_anchoring"@],),
                Ok(c),
            ),
    {
        match Self::decode_config(configuration, decode) {
            Some(Ok(config)) => Some(config),
            Some(Err(_)) => {
                assert(false);
                None
            },
            None => None,
        }
    }

    /// Returns the actual anchoring configuration.
    pub fn actual_configuration<
        D: Fn(&serde_json::Value) -> Result<GlobalConfig, serde_json::Error>,
    >(&self, decode: D) -> (config: GlobalConfig)
        requires
            stored_value(self.state().actual()) matches Some(value) && decodes(decode, value),
        ensures
            decoded_from(decode, self.state().actual(), config),
            self.snapshot.snapshot().actual().services@.contains_key("btc_anchoring"@),
            decode.ensures(
                (&self.snapshot.snapshot().actual().services@["btc_anchoring"@],),
                Ok(config),
            ),
    {
        let configuration = self.snapshot.as_snapshot().actual_configuration();
        Self::parse_config(configuration, decode).unwrap()
    }

    /// Returns the nearest following configuration if it exists.
    pub fn following_configuration<
        D: Fn(&serde_json::Value) -> Result<GlobalConfig, serde_json::Error>,
    >(&self, decode: D) -> (config: Option<GlobalConfig>)
        requires
            self.state().following() matches Some(configuration) ==> (stored_value(
                configuration,
            ) matches Some(value) ==> decodes(decode, value)),
        ensures
            match config {
                Some(c) => {
                    &&& self.state().following() matches Some(configuration)
                    &&& decoded_from(decode, configuration, c)
                },
                None => self.state().following() matches Some(configuration) ==> stored_value(
                    configuration,
                ) is None,
            },
            match self.snapshot.snapshot().following() {
                Some(configuration) => {
                    &&& config is Some == configuration.services@.contains_key("btc_anchoring"@)
                    &&& config matches Some(c) ==> decode.ensures(
                        (&configuration.services@["btc_anchoring"@],),
                        Ok(c),
                    )
                },
                None => config is None,
            },
    {
        match self.snapshot.as_snapshot().following_configuration() {
            Some(configuration) => Self::parse_config(configuration, decode),
            None => None,
        }
    }

    /// The funding transaction of `config`, unless it was spent.
    pub fn unspent_funding_transaction(&self, config: GlobalConfig) -> (transaction: Option<
        Transaction,
    >)
        ensures
            transaction == unspent(
                config,
                self.state().transaction_map(spent_funding_transactions_address()),
            ),
            match config.funding_transaction {
                Some(candidate) => transaction == if self.snapshot.snapshot().transaction_map(
                    Address { name: "btc_anchoring.spent_funding_transactions"@, family: None },
                ).contains_key(candidate.txid@) {
                    None
                } else {
                    Some(candidate)
                },
                None => transaction is None,
            },
    {
        let tx_candidate = match config.funding_transaction {
            Some(tx_candidate) => tx_candidate,
            None => {
                return None;
            },
        };
        let txid = tx_candidate.id();
        if self.spent_funding_transactions().contains(&txid) {
            None
        } else {
            Some(tx_candidate)
        }
    }

    /// The funding transaction of the actual configuration, unless it was spent.
    pub fn available_funding_transaction<
        D: Fn(&serde_json::Value) -> Result<GlobalConfig, serde_json::Error>,
    >(&self, decode: D) -> (transaction: Option<Transaction>)
        requires
            stored_value(self.state().actual()) matches Some(value) && decodes(decode, value),
        ensures
            available_in(decode, self.state(), transaction),
            exists|config: GlobalConfig|
                {
                    &&& #[trigger] decode.ensures(
                        (&self.snapshot.snapshot().actual().services@["btc_anchoring"@],),
                        Ok(config),
                    )
                    &&& match config.funding_transaction {
                        Some(candidate) => transaction
                            == if self.snapshot.snapshot().transaction_map(
                            Address {
                                name: "btc_anchoring.spent_funding_transactions"@,
                                family: None,
                            },
                        ).contains_key(candidate.txid@) {
                            None
                        } else {
                            Some(candidate)
                        },
                        None => transaction is None,
                    }
                },
    {
        let config = self.actual_configuration(decode);
        self.unspent_funding_transaction(config)
    }
}

impl<'a> BtcAnchoringSchema<&'a mut Fork> {
    /// The list of anchoring transactions, for changes.
    pub fn anchoring_transactions_chain_mut(&mut self) -> (index: ListIndex<&mut Fork>)
        ensures
            index.address == (IndexAddress { name: TRANSACTIONS_CHAIN, family: None }),
            index.address@ == transactions_chain_address(),
            *index.access == *old(self).snapshot,
            *final(self).snapshot == *final(index.access),
            *final(final(self).snapshot) == *final(old(self).snapshot),
    {
        ListIndex {
            address: IndexAddress { name: TRANSACTIONS_CHAIN, family: None },
            access: &mut *self.snapshot,
        }
    }

    /// The funding transactions that were spent, for changes.
    pub fn spent_funding_transactions_mut(&mut self) -> (index: TransactionIndex<&mut Fork>)
        ensures
            index.address == (IndexAddress { name: SPENT_FUNDING_TRANSACTIONS, family: None }),
            index.address@ == spent_funding_transactions_address(),
            *index.access == *old(self).snapshot,
            *final(self).snapshot == *final(index.access),
            *final(final(self).snapshot) == *final(old(self).snapshot),
    {
        TransactionIndex {
            address: IndexAddress { name: SPENT_FUNDING_TRANSACTIONS, family: None },
            access: &mut *self.snapshot,
        }
    }

    /// The signatures that the validator with the service key `validator` gave, for changes.
    pub fn transaction_signatures_mut(
        &mut self,
        validator: &crypto::PublicKey,
    ) -> (index: SignatureIndex<&mut Fork>)
        ensures
            index.address == (IndexAddress {
                name: TRANSACTION_SIGNATURES,
                family: Some(*validator),
            }),
            index.address@ == transaction_signatures_address(validator@),
            *index.access == *old(self).snapshot,
            *final(self).snapshot == *final(index.access),
            *final(final(self).snapshot) == *final(old(self).snapshot),
    {
        SignatureIndex {
            address: IndexAddress { name: TRANSACTION_SIGNATURES, family: Some(*validator) },
            access: &mut *self.snapshot,
        }
    }
}

} // verus!
