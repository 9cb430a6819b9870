use btc_anchoring::crypto;
use btc_anchoring::error::{Error, HandlerError, InternalError, RpcError};
use btc_anchoring::storage::IndexAddress;
use btc_anchoring::table::{Key, Table};

#[test]
fn rpc_error_becomes_an_internal_error() {
    let error = Error::from(RpcError::NoInformation("Unable to find tx".to_string()));
    match error {
        Error::Internal(InternalError::Rpc(RpcError::NoInformation(text))) => {
            assert_eq!(text, "Unable to find tx");
        }
        other => panic!("unexpected error: {:?}", other),
    }
}

#[test]
fn question_mark_converts_rpc_errors() {
    fn fails() -> Result<(), Error> {
        Err(RpcError::InsufficientFunds)?;
        Ok(())
    }
    assert!(matches!(
        fails(),
        Err(Error::Internal(InternalError::Rpc(RpcError::InsufficientFunds)))
    ));
}

#[test]
fn handler_errors_are_kept_apart() {
    let error = Error::Handler(HandlerError {
        reason: "lect is lost".to_string(),
    });
    assert!(matches!(error, Error::Handler(e) if e.reason == "lect is lost"));
}

#[test]
fn hashes_differ_in_any_byte() {
    let hash = crypto::Hash::new([9; 32]);
    assert_eq!(hash, crypto::Hash::new([9; 32]));
    for i in 0..32 {
        let mut bytes = [9; 32];
        bytes[i] = 8;
        assert_ne!(hash, crypto::Hash::new(bytes));
        assert_ne!(crypto::PublicKey::new([9; 32]), crypto::PublicKey::new(bytes));
    }
}

#[test]
fn addresses_differ_in_name_or_family() {
    let address = |name: &'static str, family: Option<u8>| IndexAddress {
        name,
        family: family.map(|byte| crypto::PublicKey::new([byte; 32])),
    };
    assert!(address("a", None).is_same(&address("a", None)));
    assert!(address("a", Some(1)).is_same(&address("a", Some(1))));
    assert!(!address("a", Some(1)).is_same(&address("a", Some(2))));
    assert!(!address("a", Some(1)).is_same(&address("a", None)));
    assert!(!address("a", None).is_same(&address("a", Some(1))));
    assert!(!address("a", None).is_same(&address("b", None)));
}

#[test]
fn table_holds_one_value_for_each_key() {
    let mut table: Table<String, u32> = Table::new();
    assert!(!table.contains(&"one".to_string()));
    table.put("one".to_string(), 1);
    table.put("two".to_string(), 2);
    table.put("one".to_string(), 11);
    assert_eq!(table.get(&"one".to_string()), Some(&11));
    assert_eq!(table.get(&"two".to_string()), Some(&2));
    assert_eq!(table.remove(&"one".to_string()), Some(11));
    assert_eq!(table.remove(&"one".to_string()), None);
    assert_eq!(table.get(&"one".to_string()), None);
    assert!(table.contains(&"two".to_string()));
}
