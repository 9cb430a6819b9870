use btc_anchoring::btc::Transaction;
use btc_anchoring::config::{GlobalConfig, StoredConfiguration, ValidatorKeys};
use btc_anchoring::crypto;
use btc_anchoring::data_layout::{InputSignatures, TxInputId};
use btc_anchoring::schema::{
    BtcAnchoringSchema, StateTable, SPENT_FUNDING_TRANSACTIONS, TRANSACTIONS_CHAIN,
    TRANSACTION_SIGNATURES,
};
use btc_anchoring::storage::{Fork, Snapshot};
use btc_anchoring::table::Table;
use btc_anchoring::BTC_ANCHORING_SERVICE_NAME;
use serde_json::Value;

fn hash(byte: u8) -> crypto::Hash {
    crypto::Hash::new([byte; 32])
}

fn key(byte: u8) -> crypto::PublicKey {
    crypto::PublicKey::new([byte; 32])
}

fn transaction(byte: u8) -> Transaction {
    Transaction {
        txid: hash(byte),
        raw: vec![2, 0, 0, 0, byte],
    }
}

/// Reads `{"funding": 7, ...}` as a configuration with the seventh transaction.
fn decode(value: &Value) -> Result<GlobalConfig, serde_json::Error> {
    let funding: Option<u8> = match value.get("funding") {
        Some(field) => serde_json::from_value(field.clone())?,
        None => None,
    };
    Ok(GlobalConfig {
        funding_transaction: funding.map(transaction),
        document: value.to_string(),
    })
}

fn configuration(services: &[(&str, &str)], validators: &[u8]) -> StoredConfiguration {
    let mut table = Table::new();
    for (name, text) in services {
        table.put(name.to_string(), serde_json::from_str(text).unwrap());
    }
    StoredConfiguration {
        validator_keys: validators
            .iter()
            .map(|byte| ValidatorKeys {
                consensus_key: key(*byte),
                service_key: key(100 + *byte),
            })
            .collect(),
        services: table,
    }
}

fn funded(byte: u8) -> Snapshot {
    let text = format!("{{\"funding\": {}}}", byte);
    Snapshot::new(
        configuration(&[(BTC_ANCHORING_SERVICE_NAME, text.as_str())], &[1, 2, 3]),
        None,
    )
}

#[test]
fn new_keeps_what_it_reads_through() {
    let snapshot = funded(7);
    let schema = BtcAnchoringSchema::new(&snapshot);
    assert!(std::ptr::eq(schema.snapshot, &snapshot));
}

#[test]
fn names_of_the_indexes() {
    assert_eq!(TRANSACTIONS_CHAIN, "btc_anchoring.transactions_chain");
    assert_eq!(TRANSACTION_SIGNATURES, "btc_anchoring.transaction_signatures");
    assert_eq!(
        SPENT_FUNDING_TRANSACTIONS,
        "btc_anchoring.spent_funding_transactions"
    );

    let snapshot = funded(7);
    let schema = BtcAnchoringSchema::new(&snapshot);
    let chain = schema.anchoring_transactions_chain();
    assert_eq!(chain.address.name, TRANSACTIONS_CHAIN);
    assert_eq!(chain.address.family, None);
    let spent = schema.spent_funding_transactions();
    assert_eq!(spent.address.name, SPENT_FUNDING_TRANSACTIONS);
    assert_eq!(spent.address.family, None);
    let signatures = schema.transaction_signatures(&key(5));
    assert_eq!(signatures.address.name, TRANSACTION_SIGNATURES);
    assert_eq!(signatures.address.family, Some(key(5)));
}

#[test]
fn indexes_are_empty_at_first() {
    let snapshot = funded(7);
    let schema = BtcAnchoringSchema::new(&snapshot);
    assert_eq!(schema.anchoring_transactions_chain().len(), 0);
    assert!(schema.anchoring_transactions_chain().get(0).is_none());
    assert!(!schema.spent_funding_transactions().contains(&hash(7)));
    assert!(schema.spent_funding_transactions().get(&hash(7)).is_none());
    let input = TxInputId {
        txid: hash(1),
        input: 0,
    };
    assert!(schema.transaction_signatures(&key(101)).get(&input).is_none());
}

#[test]
fn chain_grows_at_its_end() {
    let mut fork = Fork::new(funded(7));
    {
        let mut schema = BtcAnchoringSchema::new(&mut fork);
        schema.anchoring_transactions_chain_mut().push(transaction(1));
        schema.anchoring_transactions_chain_mut().push(transaction(2));
        // The schema over a fork reads its own changes.
        assert_eq!(schema.anchoring_transactions_chain().len(), 2);
    }
    let snapshot = fork.into_snapshot();
    let schema = BtcAnchoringSchema::new(&snapshot);
    let chain = schema.anchoring_transactions_chain();
    assert_eq!(chain.len(), 2);
    assert_eq!(chain.get(0).unwrap().id(), hash(1));
    assert_eq!(chain.get(1).unwrap().id(), hash(2));
    assert_eq!(chain.get(1).unwrap().raw, vec![2, 0, 0, 0, 2]);
    assert!(chain.get(2).is_none());
    assert!(!schema.spent_funding_transactions().contains(&hash(1)));
    assert_eq!(
        schema.available_funding_transaction(decode).unwrap().id(),
        hash(7)
    );
}

#[test]
fn spent_funding_transaction_is_not_available() {
    let mut fork = Fork::new(funded(7));
    let mut schema = BtcAnchoringSchema::new(&mut fork);
    let available = schema.available_funding_transaction(decode).unwrap();
    assert_eq!(available.id(), hash(7));
    assert_eq!(available.raw, vec![2, 0, 0, 0, 7]);

    schema.spent_funding_transactions_mut().put(hash(8), transaction(8));
    assert!(schema.available_funding_transaction(decode).is_some());

    schema.spent_funding_transactions_mut().put(hash(7), transaction(7));
    assert!(schema.available_funding_transaction(decode).is_none());
    assert!(schema.spent_funding_transactions().contains(&hash(7)));
    assert!(schema.spent_funding_transactions().contains(&hash(8)));
    assert_eq!(
        schema.spent_funding_transactions().get(&hash(8)).unwrap().raw,
        vec![2, 0, 0, 0, 8]
    );

    schema.spent_funding_transactions_mut().put(hash(9), transaction(9));
    assert!(schema.available_funding_transaction(decode).is_none());
}

#[test]
fn unspent_again_is_available_again() {
    let mut fork = Fork::new(funded(7));
    let mut schema = BtcAnchoringSchema::new(&mut fork);
    schema.spent_funding_transactions_mut().put(hash(8), transaction(8));
    assert_eq!(
        schema.available_funding_transaction(decode).unwrap().id(),
        hash(7)
    );
    schema.spent_funding_transactions_mut().put(hash(7), transaction(7));
    assert!(schema.available_funding_transaction(decode).is_none());
    schema.spent_funding_transactions_mut().remove(&hash(7));
    let available = schema.available_funding_transaction(decode).unwrap();
    assert_eq!(available.id(), hash(7));
    assert_eq!(available.raw, vec![2, 0, 0, 0, 7]);
    assert!(!schema.spent_funding_transactions().contains(&hash(7)));
    assert!(schema.spent_funding_transactions().contains(&hash(8)));

    // What is not there is taken out without effect.
    schema.spent_funding_transactions_mut().remove(&hash(9));
    assert!(schema.spent_funding_transactions().contains(&hash(8)));
}

#[test]
fn signatures_are_taken_out_for_one_input() {
    let mut fork = Fork::new(funded(7));
    let mut schema = BtcAnchoringSchema::new(&mut fork);
    let first = TxInputId {
        txid: hash(1),
        input: 0,
    };
    let second = TxInputId {
        txid: hash(1),
        input: 1,
    };
    for validator in [101, 102] {
        let mut signatures = schema.transaction_signatures_mut(&key(validator));
        signatures.put(first, InputSignatures { content: vec![1] });
        signatures.put(second, InputSignatures { content: vec![2] });
    }
    schema.transaction_signatures_mut(&key(101)).remove(&first);
    assert!(schema.transaction_signatures(&key(101)).get(&first).is_none());
    assert!(schema.transaction_signatures(&key(101)).get(&second).is_some());
    assert!(schema.transaction_signatures(&key(102)).get(&first).is_some());
}

#[test]
fn former_validators_have_no_part_in_the_state_hash() {
    let root = |table: StateTable<'_, &Fork>| match table {
        StateTable::TransactionsChain(_) => hash(1),
        StateTable::SpentFundingTransactions(_) => hash(2),
        StateTable::TransactionSignatures(index) => {
            let input = TxInputId {
                txid: hash(1),
                input: 0,
            };
            hash(if index.get(&input).is_some() { 3 } else { 4 })
        }
    };
    let mut fork = Fork::new(Snapshot::new(configuration(&[], &[1]), None));
    let input = TxInputId {
        txid: hash(1),
        input: 0,
    };
    BtcAnchoringSchema::new(&mut fork)
        .transaction_signatures_mut(&key(102))
        .put(input, InputSignatures { content: vec![1] });
    assert_eq!(
        BtcAnchoringSchema::new(&fork).state_hash(root),
        vec![hash(1), hash(2), hash(4)]
    );
    BtcAnchoringSchema::new(&mut fork)
        .transaction_signatures_mut(&key(101))
        .put(input, InputSignatures { content: vec![1] });
    assert_eq!(
        BtcAnchoringSchema::new(&fork).state_hash(root),
        vec![hash(1), hash(2), hash(3)]
    );
}

#[test]
fn nothing_is_available_without_a_funding_transaction() {
    let snapshot = Snapshot::new(
        configuration(&[(BTC_ANCHORING_SERVICE_NAME, "{\"fee\": 10}")], &[]),
        None,
    );
    let schema = BtcAnchoringSchema::new(&snapshot);
    assert!(schema.available_funding_transaction(decode).is_none());
}

#[test]
fn unspent_funding_transaction_of_a_given_configuration() {
    let mut fork = Fork::new(funded(7));
    BtcAnchoringSchema::new(&mut fork)
        .spent_funding_transactions_mut()
        .put(hash(3), transaction(3));
    let schema = BtcAnchoringSchema::new(&fork);
    let config = |funding: Option<Transaction>| GlobalConfig {
        funding_transaction: funding,
        document: String::new(),
    };
    assert!(schema
        .unspent_funding_transaction(config(Some(transaction(3))))
        .is_none());
    assert_eq!(
        schema
            .unspent_funding_transaction(config(Some(transaction(4))))
            .unwrap()
            .id(),
        hash(4)
    );
    assert!(schema.unspent_funding_transaction(config(None)).is_none());
}

#[test]
fn signatures_belong_to_one_validator() {
    let mut fork = Fork::new(funded(7));
    let mut schema = BtcAnchoringSchema::new(&mut fork);
    let first = TxInputId {
        txid: hash(1),
        input: 0,
    };
    let second = TxInputId {
        txid: hash(1),
        input: 1,
    };
    schema
        .transaction_signatures_mut(&key(101))
        .put(first, InputSignatures { content: vec![1] });
    schema
        .transaction_signatures_mut(&key(102))
        .put(first, InputSignatures { content: vec![2] });
    schema
        .transaction_signatures_mut(&key(101))
        .put(second, InputSignatures { content: vec![3] });
    schema
        .transaction_signatures_mut(&key(102))
        .put(first, InputSignatures { content: vec![4] });

    let of = |validator: u8, input: &TxInputId| {
        schema
            .transaction_signatures(&key(validator))
            .get(input)
            .map(|signatures| signatures.content.clone())
    };
    assert_eq!(of(101, &first), Some(vec![1]));
    assert_eq!(of(101, &second), Some(vec![3]));
    assert_eq!(of(102, &first), Some(vec![4]));
    assert_eq!(of(102, &second), None);
    assert_eq!(of(103, &first), None);
    assert_eq!(schema.anchoring_transactions_chain().len(), 0);
}

#[test]
fn mutable_indexes_lie_where_the_others_do() {
    let mut fork = Fork::new(funded(7));
    let mut schema = BtcAnchoringSchema::new(&mut fork);
    assert_eq!(
        schema.anchoring_transactions_chain_mut().address.name,
        TRANSACTIONS_CHAIN
    );
    assert_eq!(
        schema.spent_funding_transactions_mut().address.name,
        SPENT_FUNDING_TRANSACTIONS
    );
    let address = schema.transaction_signatures_mut(&key(4)).address;
    assert_eq!(address.name, TRANSACTION_SIGNATURES);
    assert_eq!(address.family, Some(key(4)));
}

#[test]
fn state_hash_lists_the_tables_in_order() {
    let snapshot = funded(7);
    let schema = BtcAnchoringSchema::new(&snapshot);
    let hashes = schema.state_hash(|table| match table {
        StateTable::TransactionsChain(_) => hash(1),
        StateTable::SpentFundingTransactions(_) => hash(2),
        StateTable::TransactionSignatures(index) => {
            crypto::Hash::new(index.address.family.unwrap().bytes)
        }
    });
    assert_eq!(
        hashes,
        vec![hash(1), hash(2), hash(101), hash(102), hash(103)]
    );
}

#[test]
fn state_hash_without_validators() {
    let snapshot = Snapshot::new(configuration(&[], &[]), None);
    let schema = BtcAnchoringSchema::new(&snapshot);
    let hashes = schema.state_hash(|table| match table {
        StateTable::TransactionsChain(_) => hash(1),
        StateTable::SpentFundingTransactions(_) => hash(2),
        StateTable::TransactionSignatures(_) => hash(3),
    });
    assert_eq!(hashes, vec![hash(1), hash(2)]);
}

#[test]
fn state_hash_is_of_what_the_tables_hold() {
    let root = |table: StateTable<'_, &Fork>| match table {
        StateTable::TransactionsChain(chain) => hash(chain.len() as u8),
        StateTable::SpentFundingTransactions(spent) => {
            hash(if spent.contains(&hash(7)) { 50 } else { 60 })
        }
        StateTable::TransactionSignatures(_) => hash(70),
    };
    let with_following = Snapshot::new(
        configuration(&[("other", "1")], &[1]),
        Some(configuration(&[], &[1, 2, 3, 4])),
    );
    let without = Snapshot::new(configuration(&[], &[1]), None);
    let mut first = Fork::new(with_following);
    let mut second = Fork::new(without);
    for fork in [&mut first, &mut second] {
        let mut schema = BtcAnchoringSchema::new(fork);
        schema.anchoring_transactions_chain_mut().push(transaction(1));
        schema.spent_funding_transactions_mut().put(hash(7), transaction(7));
    }
    let expected = vec![hash(1), hash(50), hash(70)];
    assert_eq!(BtcAnchoringSchema::new(&first).state_hash(root), expected);
    assert_eq!(BtcAnchoringSchema::new(&second).state_hash(root), expected);
}

#[test]
fn actual_configuration_is_the_services_own() {
    let snapshot = Snapshot::new(
        configuration(
            &[
                ("cryptocurrency", "{\"funding\": 1}"),
                ("btc_anchoring", "{\"fee\":10,\"funding\":7}"),
                ("timestamping", "\"text\""),
            ],
            &[1],
        ),
        None,
    );
    let schema = BtcAnchoringSchema::new(&snapshot);
    let config = schema.actual_configuration(decode);
    assert_eq!(config.funding_transaction.unwrap().id(), hash(7));
    assert_eq!(config.document, "{\"fee\":10,\"funding\":7}");
}

#[test]
fn following_configuration_where_there_is_one() {
    let text = "{\"funding\": 9}";
    let with = Snapshot::new(
        configuration(&[], &[]),
        Some(configuration(&[(BTC_ANCHORING_SERVICE_NAME, text)], &[])),
    );
    let found = BtcAnchoringSchema::new(&with).following_configuration(decode);
    assert_eq!(found.unwrap().funding_transaction.unwrap().id(), hash(9));

    let other_service = Snapshot::new(
        configuration(&[(BTC_ANCHORING_SERVICE_NAME, text)], &[]),
        Some(configuration(&[("other", text)], &[])),
    );
    assert!(BtcAnchoringSchema::new(&other_service)
        .following_configuration(decode)
        .is_none());

    let none = funded(7);
    assert!(BtcAnchoringSchema::new(&none)
        .following_configuration(decode)
        .is_none());
}

#[test]
fn parse_config_finds_the_entry_of_the_service() {
    let absent = configuration(&[("other", "{}")], &[]);
    assert!(BtcAnchoringSchema::<Snapshot>::parse_config(&absent, decode).is_none());
    let present = configuration(&[(BTC_ANCHORING_SERVICE_NAME, "{\"funding\": 5}")], &[]);
    let config = BtcAnchoringSchema::<Snapshot>::parse_config(&present, decode).unwrap();
    assert_eq!(config.funding_transaction.unwrap().id(), hash(5));
}

#[test]
fn decode_config_reports_what_does_not_decode() {
    let bad = configuration(&[(BTC_ANCHORING_SERVICE_NAME, "{\"funding\": \"x\"}")], &[]);
    assert!(BtcAnchoringSchema::<Snapshot>::decode_config(&bad, decode)
        .unwrap()
        .is_err());
    let absent = configuration(&[], &[]);
    assert!(BtcAnchoringSchema::<Snapshot>::decode_config(&absent, decode).is_none());
    let good = configuration(&[(BTC_ANCHORING_SERVICE_NAME, "{}")], &[]);
    assert!(BtcAnchoringSchema::<Snapshot>::decode_config(&good, decode)
        .unwrap()
        .unwrap()
        .funding_transaction
        .is_none());
}
