//! A custodial settlement ledger for a token-escrow game.
//!
//! Players deposit fungible tokens into a per-player vault, play off-chain,
//! and withdraw a final balance that only the configured referee can approve.
//! The library verifies the referee-signed settlement authorization —
//! expiry, anti-replay nonce, a self-contained signature artifact over a
//! canonical 56-byte message, and the Ed25519 signature itself (through
//! ed25519-dalek, behind a trusted contract) — and performs the exact
//! three-way fund split between player wallet, treasury, and burn.
//!
//! Host concerns — durable account storage, the wall clock, and the actual
//! token transfers — live outside this crate; the library works on plain
//! balances and bytes.

pub mod artifact;
pub mod config;
pub mod errors;
pub mod keys;
pub mod ledger;
pub mod message;
pub mod settlement;
