//! Configurations: that of the blockchain, and that of the anchoring service inside it.
use serde_json::Error as JsonError;
use vstd::prelude::*;

use crate::btc::Transaction;
use crate::crypto;
use crate::table::Table;

verus! {

/// `serde_json::Value`, a JSON value: nothing is claimed of what is inside.
#[verifier::external_type_specification]
#[verifier::external_body]
pub struct ExValue(serde_json::Value);

/// `serde_json::Error`, the reason why a JSON value was not decoded: nothing is claimed of what
/// is inside.
#[verifier::external_type_specification]
#[verifier::external_body]
pub struct ExJsonError(JsonError);

/// The public keys of a validator.
#[derive(Clone, Copy, Debug)]
pub struct ValidatorKeys {
    /// Signs the messages of the consensus algorithm.
    pub consensus_key: crypto::PublicKey,
    /// Signs the transactions of the services.
    pub service_key: crypto::PublicKey,
}

/// The part of the blockchain configuration that the anchoring service reads.
pub struct StoredConfiguration {
    /// The keys of the validators, in the order in which the validators are numbered.
    pub validator_keys: Vec<ValidatorKeys>,
    /// The configuration of each service, under the name of the service.
    pub services: Table<String, serde_json::Value>,
}

/// The configuration of the anchoring service.
#[derive(Debug)]
pub struct GlobalConfig {
    /// The transaction that funds the anchoring chain.
    pub funding_transaction: Option<Transaction>,
    /// The whole configuration as JSON text, with the settings that the schema does not read.
    pub document: String,
}

/// Whether `decode` takes `value` and finds an anchoring configuration in it.
pub open spec fn decodes<D: Fn(&serde_json::Value) -> Result<GlobalConfig, JsonError>>(
    decode: D,
    value: serde_json::Value,
) -> bool {
    &&& decode.requires((&value,))
    &&& forall|decoded: Result<GlobalConfig, JsonError>| #[trigger]
        decode.ensures((&value,), decoded) ==> decoded is Ok
}

} // verus!
