# eth_rpc_client

A JSON-RPC client for Ethereum that asks several providers. The library holds
the decisions, verified with Verus; it performs no I/O.

- `src/lifecycle.rs`: networks and how they are shown
- `src/service.rs`: the providers, and the default ones of each network
- `src/error.rs`: the errors of a call
- `src/call.rs`: sequential and parallel calls to several providers
- `src/rpc.rs`: the client and its methods
- `src/e2e.rs`: the end-to-end check of a deployed canister
- `src/text.rs`: decimal notation
- `app/`: the canister side, which makes the outcalls, encodes the types, and
  reduces the results of parallel calls with `cketh_common`

The laws of the library are the public proof functions whose names begin with
`law_`. One thing is trusted and not proved: what std's debug format makes of a
string (`src/e2e.rs`).
