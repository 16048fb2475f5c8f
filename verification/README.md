# floresta_ffi

Configuration, snapshot checks and error reporting for a Floresta Bitcoin node
embedded in a mobile app, verified with Verus.

- `src/config.rs`: the caller's `Config` and its translation into the settings the
  daemon starts with (`Config::into_node_config`).
- `src/hashes.rs`: hex-encoded 32-byte hashes, parsed by `bitcoin` and `rustreexo`.
- `src/errors.rs`: the errors callers see, how daemon failures map onto them, and
  the network check of an imported accumulator snapshot.
- `app/`: the node itself (Tokio runtime, daemon calls, logging).
