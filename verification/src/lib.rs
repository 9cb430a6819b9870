//! The information schema of a service that anchors a blockchain to Bitcoin.
//!
//! The service keeps, in the database of the blockchain, the chain of its anchoring transactions,
//! the funding transactions that it has spent, and the signatures that each validator gave. The
//! [`schema`] says where these indexes lie, which of them make up the state hash of the service,
//! how the service's configuration is found among the configurations of all services, and whether
//! the funding transaction in it can still be spent. [`laws`] states what holds of them together.
//!
//! Two things are computed elsewhere and handed to the schema as functions: the Merkle root of an
//! index, and the decoding of a configuration from JSON.
use vstd::prelude::*;

pub mod btc;
pub mod config;
pub mod crypto;
pub mod data_layout;
pub mod error;
pub mod laws;
pub mod schema;
pub mod storage;
pub mod table;

verus! {

/// The name under which the configuration of the anchoring service is stored.
pub const BTC_ANCHORING_SERVICE_NAME: &'static str = "btc_anchoring";

} // verus!
