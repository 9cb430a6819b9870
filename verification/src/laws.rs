//! What holds of the schema as a whole.
use vstd::prelude::*;
use vstd::std_specs::cmp::PartialEqSpec;
use vstd::std_specs::convert::FromSpec;

use crate::btc::Transaction;
use crate::config::{decodes, GlobalConfig, StoredConfiguration};
use crate::crypto;
use crate::data_layout::{InputSignatures, TxInputId};
use crate::error::{Error, InternalError};
use crate::schema::{
    available_in, decoded_from, spent_funding_transactions_address, stored_value,
    transaction_signatures_address, transactions_chain_address, unspent, BtcAnchoringSchema,
    StateTable, SPENT_FUNDING_TRANSACTIONS, TRANSACTIONS_CHAIN, TRANSACTION_SIGNATURES,
};
use crate::storage::{
    Address, Fork, IndexAddress, ListIndex, SignatureIndex, Snapshot, SnapshotAccess,
    TransactionIndex,
};
use crate::BTC_ANCHORING_SERVICE_NAME;

verus! {

/// The prefix of the names of all indexes of the service.
pub open spec fn service_prefix() -> Seq<char> {
    "btc_anchoring."@
}

/// Every index of the service lies under a name of the service.
pub proof fn law_names_have_the_service_prefix()
    ensures
        service_prefix().is_prefix_of(TRANSACTIONS_CHAIN@),
        service_prefix().is_prefix_of(SPENT_FUNDING_TRANSACTIONS@),
        service_prefix().is_prefix_of(TRANSACTION_SIGNATURES@),
{
    reveal_strlit("btc_anchoring.");
    reveal_strlit("btc_anchoring.transactions_chain");
    reveal_strlit("btc_anchoring.spent_funding_transactions");
    reveal_strlit("btc_anchoring.transaction_signatures");
    assert(service_prefix() =~= TRANSACTIONS_CHAIN@.subrange(0, service_prefix().len() as int));
    assert(service_prefix() =~= SPENT_FUNDING_TRANSACTIONS@.subrange(
        0,
        service_prefix().len() as int,
    ));
    assert(service_prefix() =~= TRANSACTION_SIGNATURES@.subrange(0, service_prefix().len() as int));
}

/// No two indexes of the service share an address, and the signatures of two validators share
/// one only if the validators have the same service key.
pub proof fn law_addresses_differ(validator: Seq<u8>, other: Seq<u8>)
    ensures
        transactions_chain_address() != spent_funding_transactions_address(),
        transactions_chain_address() != transaction_signatures_address(validator),
        spent_funding_transactions_address() != transaction_signatures_address(validator),
        transaction_signatures_address(validator) == transaction_signatures_address(other)
            <==> validator == other,
{
    reveal_strlit("btc_anchoring.transactions_chain");
    reveal_strlit("btc_anchoring.spent_funding_transactions");
    assert(TRANSACTIONS_CHAIN@.len() != SPENT_FUNDING_TRANSACTIONS@.len());
}

/// A transaction added to the chain is read back from its end, the transactions before it stay
/// where they are, and neither the spent funding transactions, nor any signatures, nor the
/// configurations change.
pub proof fn law_chain_grows_at_its_end(
    before: Snapshot,
    after: Snapshot,
    transaction: Transaction,
    validator: Seq<u8>,
)
    requires
        before.list_set(
            after,
            transactions_chain_address(),
            before.list(transactions_chain_address()).push(transaction),
        ),
    ensures
        ({
            let old_chain = before.list(transactions_chain_address());
            let new_chain = after.list(transactions_chain_address());
            &&& new_chain.len() == old_chain.len() + 1
            &&& new_chain.last() == transaction
            &&& forall|i: int| 0 <= i < old_chain.len() ==> #[trigger] new_chain[i] == old_chain[i]
        }),
        after.transaction_map(spent_funding_transactions_address()) == before.transaction_map(
            spent_funding_transactions_address(),
        ),
        after.signature_map(transaction_signatures_address(validator)) == before.signature_map(
            transaction_signatures_address(validator),
        ),
        before.same_configurations(after),
{
}

/// Once a funding transaction is recorded as spent it is read back under its identifier and is
/// no longer available, whatever the configuration says of it besides its identifier; a
/// transaction with another identifier is as available as before.
pub proof fn law_spent_is_not_available(
    before: Snapshot,
    after: Snapshot,
    key: crypto::Hash,
    transaction: Transaction,
    config: GlobalConfig,
)
    requires
        before.transaction_map_set(
            after,
            spent_funding_transactions_address(),
            before.transaction_map(spent_funding_transactions_address()).insert(key@, transaction),
        ),
    ensures
        ({
            let old_spent = before.transaction_map(spent_funding_transactions_address());
            let new_spent = after.transaction_map(spent_funding_transactions_address());
            &&& new_spent.contains_key(key@)
            &&& new_spent[key@] == transaction
            &&& config.funding_transaction matches Some(candidate) ==> {
                &&& candidate.txid@ == key@ ==> unspent(config, new_spent) is None
                &&& candidate.txid@ != key@ ==> unspent(config, new_spent) == unspent(
                    config,
                    old_spent,
                )
            }
            &&& config.funding_transaction is None ==> unspent(config, new_spent) is None
        }),
        after.list(transactions_chain_address()) == before.list(transactions_chain_address()),
        forall|validator: Seq<u8>|
            after.signature_map(#[trigger] transaction_signatures_address(validator))
                == before.signature_map(transaction_signatures_address(validator)),
        before.same_configurations(after),
{
}

/// A funding transaction that is taken out of the spent ones is available where the configuration
/// names it, and a transaction with another identifier is as available as before; the chain, the
/// signatures and the configurations stay.
pub proof fn law_taken_out_is_available(
    before: Snapshot,
    after: Snapshot,
    key: crypto::Hash,
    config: GlobalConfig,
)
    requires
        before.transaction_map_set(
            after,
            spent_funding_transactions_address(),
            before.transaction_map(spent_funding_transactions_address()).remove(key@),
        ),
    ensures
        ({
            let old_spent = before.transaction_map(spent_funding_transactions_address());
            let new_spent = after.transaction_map(spent_funding_transactions_address());
            &&& !new_spent.contains_key(key@)
            &&& config.funding_transaction matches Some(candidate) ==> {
                &&& candidate.txid@ == key@ ==> unspent(config, new_spent) == Some(candidate)
                &&& candidate.txid@ != key@ ==> unspent(config, new_spent) == unspent(
                    config,
                    old_spent,
                )
            }
            &&& config.funding_transaction is None ==> unspent(config, new_spent) is None
        }),
        after.list(transactions_chain_address()) == before.list(transactions_chain_address()),
        forall|validator: Seq<u8>|
            after.signature_map(#[trigger] transaction_signatures_address(validator))
                == before.signature_map(transaction_signatures_address(validator)),
        before.same_configurations(after),
{
}

/// A funding transaction that is recorded as spent and then taken out again is as available as it
/// was: every index and every configuration is back as it stood.
pub proof fn law_unspent_again_is_available_again<
    D: Fn(&serde_json::Value) -> Result<GlobalConfig, serde_json::Error>,
>(
    decode: D,
    before: Snapshot,
    between: Snapshot,
    after: Snapshot,
    key: crypto::Hash,
    transaction: Transaction,
)
    requires
        !before.transaction_map(spent_funding_transactions_address()).contains_key(key@),
        before.transaction_map_set(
            between,
            spent_funding_transactions_address(),
            before.transaction_map(spent_funding_transactions_address()).insert(key@, transaction),
        ),
        between.transaction_map_set(
            after,
            spent_funding_transactions_address(),
            between.transaction_map(spent_funding_transactions_address()).remove(key@),
        ),
    ensures
        forall|available: Option<Transaction>|
            available_in(decode, after, available) <==> #[trigger] available_in(
                decode,
                before,
                available,
            ),
        forall|a: Address| #[trigger] after.transaction_map(a) == before.transaction_map(a),
        forall|a: Address| #[trigger] after.list(a) == before.list(a),
        forall|a: Address| #[trigger] after.signature_map(a) == before.signature_map(a),
        before.same_configurations(after),
{
    let address = spent_funding_transactions_address();
    assert(after.transaction_map(address) =~= before.transaction_map(address));
    assert forall|a: Address| #[trigger] after.transaction_map(a) == before.transaction_map(a) by {
        if a != address {
            assert(between.transaction_map(a) == before.transaction_map(a));
        }
    }
    assert forall|a: Address| #[trigger] after.list(a) == before.list(a) by {
        assert(between.list(a) == before.list(a));
    }
    assert forall|a: Address| #[trigger] after.signature_map(a) == before.signature_map(a) by {
        assert(between.signature_map(a) == before.signature_map(a));
    }
    assert forall|available: Option<Transaction>|
        available_in(decode, after, available) <==> #[trigger] available_in(
            decode,
            before,
            available,
        ) by {
        if available_in(decode, after, available) {
            let config = choose|config: GlobalConfig|
                #[trigger] decoded_from(decode, after.actual(), config) && available == unspent(
                    config,
                    after.transaction_map(address),
                );
            assert(decoded_from(decode, before.actual(), config));
        }
        if available_in(decode, before, available) {
            let config = choose|config: GlobalConfig|
                #[trigger] decoded_from(decode, before.actual(), config) && available == unspent(
                    config,
                    before.transaction_map(address),
                );
            assert(decoded_from(decode, after.actual(), config));
        }
    }
}

/// A spent funding transaction stays unavailable whatever further transactions are recorded as
/// spent.
pub proof fn law_spent_stays_spent(
    before: Snapshot,
    after: Snapshot,
    key: crypto::Hash,
    transaction: Transaction,
    config: GlobalConfig,
)
    requires
        before.transaction_map_set(
            after,
            spent_funding_transactions_address(),
            before.transaction_map(spent_funding_transactions_address()).insert(key@, transaction),
        ),
        unspent(
            config,
            before.transaction_map(spent_funding_transactions_address()),
        ) is None,
    ensures
        unspent(config, after.transaction_map(spent_funding_transactions_address())) is None,
{
}

/// What is available is the funding transaction of the configuration, and it is not spent.
pub proof fn law_available_is_configured_and_unspent(
    config: GlobalConfig,
    spent: Map<Seq<u8>, Transaction>,
)
    ensures
        unspent(config, spent) matches Some(transaction) ==> config.funding_transaction == Some(
            transaction,
        ) && !spent.contains_key(transaction.txid@),
{
}

/// Signatures put for a validator are read back for it, its signatures for other inputs stay,
/// and no other validator's signatures, nor the chain, nor the spent funding transactions, nor
/// the configurations change.
pub proof fn law_signatures_belong_to_one_validator(
    before: Snapshot,
    after: Snapshot,
    validator: crypto::PublicKey,
    other: crypto::PublicKey,
    input: TxInputId,
    signatures: InputSignatures,
)
    requires
        before.signature_map_set(
            after,
            transaction_signatures_address(validator@),
            before.signature_map(transaction_signatures_address(validator@)).insert(
                input@,
                signatures,
            ),
        ),
    ensures
        ({
            let old_map = before.signature_map(transaction_signatures_address(validator@));
            let new_map = after.signature_map(transaction_signatures_address(validator@));
            &&& new_map.contains_key(input@)
            &&& new_map[input@] == signatures
            &&& forall|i: (Seq<u8>, u32)|
                i != input@ ==> {
                    &&& #[trigger] new_map.contains_key(i) == old_map.contains_key(i)
                    &&& old_map.contains_key(i) ==> new_map[i] == old_map[i]
                }
        }),
        other@ != validator@ ==> after.signature_map(transaction_signatures_address(other@))
            == before.signature_map(transaction_signatures_address(other@)),
        after.list(transactions_chain_address()) == before.list(transactions_chain_address()),
        after.transaction_map(spent_funding_transactions_address()) == before.transaction_map(
            spent_funding_transactions_address(),
        ),
        before.same_configurations(after),
{
    law_addresses_differ(validator@, other@);
}

/// Signatures that are put for an input without any and then taken out again leave every index and
/// every configuration as it stood.
pub proof fn law_signatures_taken_out_leave_nothing(
    before: Snapshot,
    between: Snapshot,
    after: Snapshot,
    validator: crypto::PublicKey,
    input: TxInputId,
    signatures: InputSignatures,
)
    requires
        !before.signature_map(transaction_signatures_address(validator@)).contains_key(input@),
        before.signature_map_set(
            between,
            transaction_signatures_address(validator@),
            before.signature_map(transaction_signatures_address(validator@)).insert(
                input@,
                signatures,
            ),
        ),
        between.signature_map_set(
            after,
            transaction_signatures_address(validator@),
            between.signature_map(transaction_signatures_address(validator@)).remove(input@),
        ),
    ensures
        forall|a: Address| #[trigger] after.signature_map(a) == before.signature_map(a),
        forall|a: Address| #[trigger] after.list(a) == before.list(a),
        forall|a: Address| #[trigger] after.transaction_map(a) == before.transaction_map(a),
        before.same_configurations(after),
{
    let address = transaction_signatures_address(validator@);
    assert(after.signature_map(address) =~= before.signature_map(address));
    assert forall|a: Address| #[trigger] after.signature_map(a) == before.signature_map(a) by {
        if a != address {
            assert(between.signature_map(a) == before.signature_map(a));
        }
    }
    assert forall|a: Address| #[trigger] after.list(a) == before.list(a) by {
        assert(between.list(a) == before.list(a));
    }
    assert forall|a: Address| #[trigger] after.transaction_map(a) == before.transaction_map(a) by {
        assert(between.transaction_map(a) == before.transaction_map(a));
    }
}

/// The anchoring configuration is the one stored under the name of the service: what is stored
/// under another name has no part in it.
pub proof fn law_configuration_is_the_services_own(
    before: StoredConfiguration,
    after: StoredConfiguration,
    name: Seq<char>,
    value: serde_json::Value,
)
    requires
        after.services@ == before.services@.insert(name, value),
    ensures
        name == BTC_ANCHORING_SERVICE_NAME@ ==> stored_value(after) == Some(value),
        name != BTC_ANCHORING_SERVICE_NAME@ ==> stored_value(after) == stored_value(before),
{
}

/// The state hash has one hash for the chain, one for the spent funding transactions, and one for
/// each validator of the actual configuration, in this order.
pub proof fn law_state_tables<T: SnapshotAccess>(schema: BtcAnchoringSchema<T>)
    ensures
        ({
            let keys = schema.state().actual().validator_keys@;
            let tables = schema.state_tables();
            &&& tables.len() == keys.len() + 2
            &&& tables[0] == StateTable::TransactionsChain(schema.chain_index())
            &&& tables[1] == StateTable::SpentFundingTransactions(schema.spent_index())
            &&& forall|i: int|
                0 <= i < keys.len() ==> #[trigger] tables[i + 2]
                    == StateTable::TransactionSignatures(
                    schema.signatures_index(keys[i].service_key),
                )
        }),
{
}

/// What a table of the state hash holds.
pub enum Contents {
    List(Seq<Transaction>),
    Transactions(Map<Seq<u8>, Transaction>),
    Signatures(Map<(Seq<u8>, u32), InputSignatures>),
}

/// What the table `table` holds.
pub open spec fn contents<T: SnapshotAccess>(table: StateTable<'_, T>) -> Contents {
    match table {
        StateTable::TransactionsChain(index) => Contents::List(index@),
        StateTable::SpentFundingTransactions(index) => Contents::Transactions(index@),
        StateTable::TransactionSignatures(index) => Contents::Signatures(index@),
    }
}

/// Whether two results of `merkle_root` are the same for tables that hold the same.
pub open spec fn root_of_contents<'s, T: SnapshotAccess + 's, F: Fn(StateTable<'s, T>) -> crypto::Hash>(
    merkle_root: F,
) -> bool {
    forall|t1: StateTable<'s, T>, t2: StateTable<'s, T>, h1: crypto::Hash, h2: crypto::Hash|
        contents(t1) == contents(t2) && #[trigger] merkle_root.ensures((t1,), h1)
            && #[trigger] merkle_root.ensures((t2,), h2) ==> h1 == h2
}

/// The state hash is decided by the chain, the spent funding transactions, the service keys of the
/// validators and the signatures of these validators: neither another index, that of a former
/// validator included, nor the following configuration, nor the rest of the actual configuration
/// has a part in it.
pub proof fn law_state_hash_is_of_contents<
    's,
    T: SnapshotAccess + 's,
    F: Fn(StateTable<'s, T>) -> crypto::Hash,
>(
    schema: BtcAnchoringSchema<T>,
    other: BtcAnchoringSchema<T>,
    merkle_root: F,
    hashes: Seq<crypto::Hash>,
    other_hashes: Seq<crypto::Hash>,
)
    requires
        root_of_contents(merkle_root),
        schema.state().list(transactions_chain_address()) == other.state().list(
            transactions_chain_address(),
        ),
        schema.state().transaction_map(spent_funding_transactions_address())
            == other.state().transaction_map(spent_funding_transactions_address()),
        schema.state().actual().validator_keys@.len()
            == other.state().actual().validator_keys@.len(),
        forall|i: int|
            0 <= i < schema.state().actual().validator_keys@.len() ==> (
            #[trigger] schema.state().actual().validator_keys@[i]).service_key@
                == other.state().actual().validator_keys@[i].service_key@,
        forall|i: int|
            0 <= i < schema.state().actual().validator_keys@.len() ==> {
                let address = transaction_signatures_address(
                    (#[trigger] schema.state().actual().validator_keys@[i]).service_key@,
                );
                schema.state().signature_map(address) == other.state().signature_map(address)
            },
        hashes.len() == schema.state_tables().len(),
        forall|i: int|
            0 <= i < schema.state_tables().len() ==> merkle_root.ensures(
                (#[trigger] schema.state_tables()[i],),
                hashes[i],
            ),
        other_hashes.len() == other.state_tables().len(),
        forall|i: int|
            0 <= i < other.state_tables().len() ==> merkle_root.ensures(
                (#[trigger] other.state_tables()[i],),
                other_hashes[i],
            ),
    ensures
        hashes == other_hashes,
{
    let tables = schema.state_tables();
    let other_tables = other.state_tables();
    assert forall|i: int| 0 <= i < hashes.len() implies hashes[i] == other_hashes[i] by {
        let keys = schema.state().actual().validator_keys@;
        let other_keys = other.state().actual().validator_keys@;
        if i >= 2 {
            let key = keys[i - 2].service_key;
            let other_key = other_keys[i - 2].service_key;
            assert(key@ == other_key@);
            assert(schema.signatures_index(key).address@ == transaction_signatures_address(key@));
            assert(other.signatures_index(other_key).address@ == transaction_signatures_address(
                key@,
            ));
        } else {
            assert(schema.chain_index().address@ == transactions_chain_address());
            assert(schema.spent_index().address@ == spent_funding_transactions_address());
        }
        assert(contents(tables[i]) == contents(other_tables[i]));
        assert(merkle_root.ensures((tables[i],), hashes[i]));
        assert(merkle_root.ensures((other_tables[i],), other_hashes[i]));
    }
    assert(hashes =~= other_hashes);
}

/// Two hashes are the same key, and compare as equal, exactly if all their bytes are the same.
pub proof fn law_hashes_are_told_apart_by_every_byte(a: crypto::Hash, b: crypto::Hash)
    ensures
        a@ == b@ <==> a.bytes@ == b.bytes@,
        crypto::Hash::obeys_eq_spec(),
        a.eq_spec(&b) <==> a.bytes@ == b.bytes@,
{
}

/// Two public keys are the same key, and compare as equal, exactly if all their bytes are the
/// same.
pub proof fn law_public_keys_are_told_apart_by_every_byte(
    a: crypto::PublicKey,
    b: crypto::PublicKey,
)
    ensures
        a@ == b@ <==> a.bytes@ == b.bytes@,
        crypto::PublicKey::obeys_eq_spec(),
        a.eq_spec(&b) <==> a.bytes@ == b.bytes@,
{
}

/// Two inputs are the same key exactly if they are the same input of the same transaction.
pub proof fn law_inputs_are_told_apart(a: TxInputId, b: TxInputId)
    ensures
        a@ == b@ <==> a.txid.bytes@ == b.txid.bytes@ && a.input == b.input,
{
}

/// Two indexes lie at the same address exactly if their names are the same and neither belongs to
/// a validator, or both belong to the validator with the same service key.
pub proof fn law_indexes_are_told_apart(a: IndexAddress, b: IndexAddress)
    ensures
        a@ == b@ <==> a.name@ == b.name@ && match (a.family, b.family) {
            (Some(key), Some(other)) => key.bytes@ == other.bytes@,
            (None, None) => true,
            _ => false,
        },
        a@.name == a.name@,
        a@.family is None <==> a.family is None,
{
}

/// The names under which the indexes lie, and that the signatures of two validators lie apart
/// as soon as one byte of their service keys differs.
pub proof fn law_where_the_indexes_lie(validator: crypto::PublicKey, other: crypto::PublicKey)
    ensures
        transactions_chain_address() == (Address {
            name: "btc_anchoring.transactions_chain"@,
            family: None,
        }),
        spent_funding_transactions_address() == (Address {
            name: "btc_anchoring.spent_funding_transactions"@,
            family: None,
        }),
        transaction_signatures_address(validator@) == (Address {
            name: "btc_anchoring.transaction_signatures"@,
            family: Some(validator@),
        }),
        transaction_signatures_address(validator@) == transaction_signatures_address(other@)
            <==> validator.bytes@ == other.bytes@,
{
}

/// An index holds what the state that it is opened over holds at its address.
pub proof fn law_indexes_read_their_address<T: SnapshotAccess>(
    list: ListIndex<T>,
    transactions: TransactionIndex<T>,
    signatures: SignatureIndex<T>,
)
    ensures
        list@ == list.access.snapshot().list(list.address@),
        transactions@ == transactions.access.snapshot().transaction_map(transactions.address@),
        signatures@ == signatures.access.snapshot().signature_map(signatures.address@),
{
}

/// A snapshot is read as it is, a fork as it stands, a reference as what it refers to, and a
/// schema reads the state that it was made for.
pub proof fn law_what_is_read<T: SnapshotAccess>(
    snapshot: Snapshot,
    fork: Fork,
    access: T,
    schema: BtcAnchoringSchema<T>,
)
    ensures
        snapshot.snapshot() == snapshot,
        fork.snapshot() == fork.state,
        (&access).snapshot() == access.snapshot(),
        schema.state() == schema.snapshot.snapshot(),
{
}

/// What `decoded_from` accepts is exactly what the decoding gives for the value stored under the
/// name of the service: no field is changed, and nothing else of the configuration has a part.
pub proof fn law_decoded_configuration_is_unchanged<
    D: Fn(&serde_json::Value) -> Result<GlobalConfig, serde_json::Error>,
>(decode: D, configuration: StoredConfiguration, config: GlobalConfig)
    ensures
        decoded_from(decode, configuration, config) <==> {
            &&& configuration.services@.contains_key("btc_anchoring"@)
            &&& decode.ensures((&configuration.services@["btc_anchoring"@],), Ok(config))
        },
{
}

/// A configuration stores a value for the service exactly if there is one under its name, and
/// then it is that value.
pub proof fn law_stored_value_is_under_the_name(configuration: StoredConfiguration)
    ensures
        stored_value(configuration) is Some <==> configuration.services@.contains_key(
            "btc_anchoring"@,
        ),
        stored_value(configuration) matches Some(value) ==> value
            == configuration.services@["btc_anchoring"@],
{
}

/// A value decodes exactly if it may be handed to the decoding and no result for it is an error.
pub proof fn law_decodes_without_an_error<
    D: Fn(&serde_json::Value) -> Result<GlobalConfig, serde_json::Error>,
>(decode: D, value: serde_json::Value)
    ensures
        decodes(decode, value) <==> {
            &&& decode.requires((&value,))
            &&& !exists|error: serde_json::Error| #[trigger] decode.ensures((&value,), Err(error))
        },
{
    if decode.requires((&value,)) && !decodes(decode, value) {
        let decoded = choose|decoded: Result<GlobalConfig, serde_json::Error>| #[trigger]
            decode.ensures((&value,), decoded) && !(decoded is Ok);
        assert(decode.ensures((&value,), Err(decoded->Err_0)));
    }
}

/// Whatever the chain, the signatures and the following configuration hold: a transaction that is
/// available is the funding transaction of a configuration that was decoded, and its identifier
/// is not spent; nothing is available only where a decoded configuration has no funding
/// transaction or a spent one; and each decoded configuration makes its funding transaction
/// available where it is not spent, and nothing where it is.
pub proof fn law_available_is_decided_by_what_is_spent<
    D: Fn(&serde_json::Value) -> Result<GlobalConfig, serde_json::Error>,
>(decode: D, state: Snapshot, available: Option<Transaction>)
    requires
        state.actual().services@.contains_key("btc_anchoring"@),
    ensures
        ({
            let spent = state.transaction_map(
                Address { name: "btc_anchoring.spent_funding_transactions"@, family: None },
            );
            available_in(decode, state, available) ==> match available {
                Some(transaction) => {
                    &&& !spent.contains_key(transaction.txid@)
                    &&& exists|config: GlobalConfig|
                        #[trigger] decode.ensures(
                            (&state.actual().services@["btc_anchoring"@],),
                            Ok(config),
                        ) && config.funding_transaction == Some(transaction)
                },
                None => exists|config: GlobalConfig|
                    #[trigger] decode.ensures(
                        (&state.actual().services@["btc_anchoring"@],),
                        Ok(config),
                    ) && (config.funding_transaction matches Some(transaction)
                        ==> spent.contains_key(transaction.txid@)),
            }
        }),
        forall|config: GlobalConfig|
            #[trigger] decode.ensures((&state.actual().services@["btc_anchoring"@],), Ok(config))
                ==> match config.funding_transaction {
                Some(transaction) => if state.transaction_map(
                    Address { name: "btc_anchoring.spent_funding_transactions"@, family: None },
                ).contains_key(transaction.txid@) {
                    available_in(decode, state, None)
                } else {
                    available_in(decode, state, Some(transaction))
                },
                None => available_in(decode, state, None),
            },
{
    if available_in(decode, state, available) {
        let config = choose|config: GlobalConfig|
            #[trigger] decoded_from(decode, state.actual(), config) && available == unspent(
                config,
                state.transaction_map(spent_funding_transactions_address()),
            );
        assert(decode.ensures((&state.actual().services@["btc_anchoring"@],), Ok(config)));
    }
    assert forall|config: GlobalConfig|
        #[trigger] decode.ensures(
            (&state.actual().services@["btc_anchoring"@],),
            Ok(config),
        ) implies match config.funding_transaction {
        Some(transaction) => if state.transaction_map(
            Address { name: "btc_anchoring.spent_funding_transactions"@, family: None },
        ).contains_key(transaction.txid@) {
            available_in(decode, state, None)
        } else {
            available_in(decode, state, Some(transaction))
        },
        None => available_in(decode, state, None),
    } by {
        assert(decoded_from(decode, state.actual(), config));
    }
}

/// Where every configuration that is decoded has a funding transaction that was spent, or none,
/// nothing is available, whatever else the state holds.
pub proof fn law_nothing_is_available_once_all_is_spent<
    D: Fn(&serde_json::Value) -> Result<GlobalConfig, serde_json::Error>,
>(decode: D, state: Snapshot, available: Option<Transaction>)
    requires
        state.actual().services@.contains_key("btc_anchoring"@),
        forall|config: GlobalConfig|
            #[trigger] decode.ensures((&state.actual().services@["btc_anchoring"@],), Ok(config))
                ==> (config.funding_transaction matches Some(transaction)
                ==> state.transaction_map(
                Address { name: "btc_anchoring.spent_funding_transactions"@, family: None },
            ).contains_key(transaction.txid@)),
        available_in(decode, state, available),
    ensures
        available is None,
{
    law_available_is_decided_by_what_is_spent(decode, state, available);
}

/// Two states that store the same value for the service and hold the same spent funding
/// transactions make the same available, however they differ in the chain, the signatures, the
/// validators, the other services and the following configuration.
pub proof fn law_available_depends_on_nothing_else<
    D: Fn(&serde_json::Value) -> Result<GlobalConfig, serde_json::Error>,
>(decode: D, state: Snapshot, other: Snapshot, available: Option<Transaction>)
    requires
        state.actual().services@.contains_key("btc_anchoring"@),
        other.actual().services@.contains_key("btc_anchoring"@),
        state.actual().services@["btc_anchoring"@] == other.actual().services@["btc_anchoring"@],
        state.transaction_map(
            Address { name: "btc_anchoring.spent_funding_transactions"@, family: None },
        ) == other.transaction_map(
            Address { name: "btc_anchoring.spent_funding_transactions"@, family: None },
        ),
    ensures
        available_in(decode, state, available) <==> available_in(decode, other, available),
{
    law_available_is_decided_by_what_is_spent(decode, state, available);
    law_available_is_decided_by_what_is_spent(decode, other, available);
}

/// Whether a funding transaction is offered is decided by its identifier alone: it is offered,
/// whole and unchanged, exactly if no spent one has the same identifier.
pub proof fn law_unspent_is_offered_whole(
    config: GlobalConfig,
    spent: Map<Seq<u8>, Transaction>,
    transaction: Transaction,
)
    ensures
        unspent(config, spent) == Some(transaction) <==> {
            &&& config.funding_transaction == Some(transaction)
            &&& !spent.contains_key(transaction.txid@)
        },
        unspent(config, spent) is None <==> (config.funding_transaction matches Some(candidate)
            ==> spent.contains_key(candidate.txid@)),
{
}

/// Recording one transaction as spent leaves the entry of every identifier that differs in any
/// byte as it was, and with it whether the transaction with that identifier is available.
pub proof fn law_spending_spares_other_identifiers(
    before: Snapshot,
    after: Snapshot,
    key: crypto::Hash,
    transaction: Transaction,
    other: crypto::Hash,
    config: GlobalConfig,
)
    requires
        before.transaction_map_set(
            after,
            spent_funding_transactions_address(),
            before.transaction_map(spent_funding_transactions_address()).insert(key@, transaction),
        ),
        other.bytes@ != key.bytes@,
    ensures
        ({
            let old_spent = before.transaction_map(spent_funding_transactions_address());
            let new_spent = after.transaction_map(spent_funding_transactions_address());
            &&& new_spent.contains_key(other@) <==> old_spent.contains_key(other@)
            &&& old_spent.contains_key(other@) ==> new_spent[other@] == old_spent[other@]
            &&& config.funding_transaction matches Some(candidate) ==> (candidate.txid == other
                ==> unspent(config, new_spent) == unspent(config, old_spent))
        }),
{
    law_hashes_are_told_apart_by_every_byte(key, other);
}

/// Putting signatures for one input leaves the signatures for every other input of the validator
/// as they were, be it another input of the same transaction or an input of another one; and it
/// leaves all signatures of every validator whose service key differs in any byte as they were.
pub proof fn law_signatures_spare_other_inputs(
    before: Snapshot,
    after: Snapshot,
    validator: crypto::PublicKey,
    input: TxInputId,
    signatures: InputSignatures,
    other_input: TxInputId,
    other_validator: crypto::PublicKey,
)
    requires
        before.signature_map_set(
            after,
            transaction_signatures_address(validator@),
            before.signature_map(transaction_signatures_address(validator@)).insert(
                input@,
                signatures,
            ),
        ),
    ensures
        ({
            let old_map = before.signature_map(transaction_signatures_address(validator@));
            let new_map = after.signature_map(transaction_signatures_address(validator@));
            other_input.txid.bytes@ != input.txid.bytes@ || other_input.input != input.input ==> {
                &&& new_map.contains_key(other_input@) <==> old_map.contains_key(other_input@)
                &&& old_map.contains_key(other_input@) ==> new_map[other_input@]
                    == old_map[other_input@]
            }
        }),
        other_validator.bytes@ != validator.bytes@ ==> after.signature_map(
            transaction_signatures_address(other_validator@),
        ) == before.signature_map(transaction_signatures_address(other_validator@)),
{
    law_inputs_are_told_apart(input, other_input);
    law_where_the_indexes_lie(validator, other_validator);
}

/// The tables of the state hash by name: first the chain, then the spent funding transactions,
/// then the signatures of the validators of the actual configuration, each under its service key
/// and in the order of the configuration, all read through what the schema reads through.
pub proof fn law_state_tables_by_name<T: SnapshotAccess>(schema: BtcAnchoringSchema<T>)
    ensures
        ({
            let keys = schema.snapshot.snapshot().actual().validator_keys@;
            let tables = schema.state_tables();
            &&& tables.len() == keys.len() + 2
            &&& tables[0] matches StateTable::TransactionsChain(index) && {
                &&& index.address.name@ == "btc_anchoring.transactions_chain"@
                &&& index.address.family is None
                &&& *index.access == schema.snapshot
            }
            &&& tables[1] matches StateTable::SpentFundingTransactions(index) && {
                &&& index.address.name@ == "btc_anchoring.spent_funding_transactions"@
                &&& index.address.family is None
                &&& *index.access == schema.snapshot
            }
            &&& forall|i: int|
                0 <= i < keys.len() ==> (#[trigger] tables[i + 2] matches
                    StateTable::TransactionSignatures(index) && {
                    &&& index.address.name@ == "btc_anchoring.transaction_signatures"@
                    &&& index.address.family == Some(keys[i].service_key)
                    &&& *index.access == schema.snapshot
                })
        }),
{
}

/// An error of the Bitcoin RPC client becomes an internal error that holds it unchanged.
pub proof fn law_rpc_errors_are_internal(err: exonum_bitcoinrpc::Error)
    ensures
        <Error as FromSpec<exonum_bitcoinrpc::Error>>::obeys_from_spec(),
        Error::from_spec(err) == Error::Internal(InternalError::Rpc(err)),
{
}

/// What is written to a list is in it exactly as it was written, and every other index and
/// both configurations are as they were.
pub proof fn law_a_list_write_changes_one_index(
    before: Snapshot,
    after: Snapshot,
    address: Address,
    items: Seq<Transaction>,
    other: Address,
)
    requires
        before.list_set(after, address, items),
    ensures
        after.list(other) == if other == address {
            items
        } else {
            before.list(other)
        },
        after.transaction_map(other) == before.transaction_map(other),
        after.signature_map(other) == before.signature_map(other),
        after.actual() == before.actual(),
        after.following() == before.following(),
{
}

/// What is written to a map of transactions is in it exactly as it was written, and every other index and
/// both configurations are as they were.
pub proof fn law_a_transaction_write_changes_one_index(
    before: Snapshot,
    after: Snapshot,
    address: Address,
    items: Map<Seq<u8>, Transaction>,
    other: Address,
)
    requires
        before.transaction_map_set(after, address, items),
    ensures
        after.list(other) == before.list(other),
        after.transaction_map(other) == if other == address {
            items
        } else {
            before.transaction_map(other)
        },
        after.signature_map(other) == before.signature_map(other),
        after.actual() == before.actual(),
        after.following() == before.following(),
{
}

/// What is written to a map of signatures is in it exactly as it was written, and every other index and
/// both configurations are as they were.
pub proof fn law_a_signature_write_changes_one_index(
    before: Snapshot,
    after: Snapshot,
    address: Address,
    items: Map<(Seq<u8>, u32), InputSignatures>,
    other: Address,
)
    requires
        before.signature_map_set(after, address, items),
    ensures
        after.list(other) == before.list(other),
        after.transaction_map(other) == before.transaction_map(other),
        after.signature_map(other) == if other == address {
            items
        } else {
            before.signature_map(other)
        },
        after.actual() == before.actual(),
        after.following() == before.following(),
{
}

/// Two states hold the same configurations exactly if the actual ones are the same and the
/// following ones are the same.
pub proof fn law_same_configurations_are_both_the_same(before: Snapshot, after: Snapshot)
    ensures
        before.same_configurations(after) <==> {
            &&& before.actual() == after.actual()
            &&& before.following() == after.following()
        },
{
}

} // verus!
