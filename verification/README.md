# installinator_artifactd

The artifact store of the installinator's artifact server, verified with Verus.

- `src/numeral.rs`: the decimal `usize` grammar (an optional `+`, then ASCII
  digits, value within `usize`) and a verified parser for it.
- `src/buffer.rs`: the `bytes` crate's `BytesMut` and `Bytes`, declared to Verus,
  with the trusted contracts of the three calls the store makes.
- `src/store.rs`: `ArtifactId`, `ArtifactStore` and `get_artifact`, whose contract
  states which artifact each id gives, and the laws about it.
- `app/lib.rs`: the request parameters with their serde and schemars derives, and
  a store that logs through `slog`.
