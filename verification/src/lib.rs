//! Accounting and authorization core of a two-way token bridge.
//!
//! One `BridgeInstance` manages one token for one (owner, token, version,
//! home-chain) tuple: bridge-wide parameters, per-remote-chain exchange
//! rates and enablement flags, per-user outbound nonces, write-once
//! outbound transfer records, and replay guards for inbound transfers.
//!
//! The engine itself moves no funds: `send` and `fulfill` validate a
//! request, update the records, and return the exact amounts that the
//! caller's token-ledger service must move. Signature checks and the
//! ledger itself are collaborators outside this crate.

pub mod bridge;
pub mod laws;
pub mod model;
pub mod types;
