# btc_anchoring

The information schema of a service that anchors a blockchain to Bitcoin, verified with Verus.

- `src/schema.rs`: `BtcAnchoringSchema`: where the indexes of the service lie, its state hash, its
  configuration, and the funding transaction that is still available.
- `src/laws.rs`: what holds of the schema as a whole, as proof functions.
- `src/storage.rs`, `src/table.rs`: database states, forks, and the indexes opened over them.
- `src/config.rs`, `src/btc.rs`, `src/crypto.rs`, `src/data_layout.rs`: the values that are stored.
- `src/error.rs`: the errors of the service.
- `app/`: the same schema over the database of an exonum node. It reads the database, computes the
  Merkle roots and decodes the JSON configurations, and leaves every decision to the library.

Three outside types are declared to Verus without any claim about them: `serde_json::Value`,
`serde_json::Error` and `exonum_bitcoinrpc::Error`.
