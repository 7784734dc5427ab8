//! A miniature deterministic ledger runtime.
//!
//! Three pallets hold the chain's state: `balances` (per-account funds),
//! `proof_of_existence` (content claims), and `system` (block number and
//! per-account nonces). The `runtime` module composes them and executes
//! blocks of extrinsics, isolating each extrinsic's failure from the rest
//! of its block.

pub mod balances;
pub mod proof_of_existence;
pub mod runtime;
pub mod support;
pub mod system;
