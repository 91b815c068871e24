//! An on-chain vending-and-rewards program core: machine configuration,
//! time-limited one-shot purchase vouchers, per-user purchase progress toward
//! a loyalty reward, a token-funded report marketplace, and Merkle-proof-gated
//! distribution of escrowed report earnings.
//!
//! Every operation is a synchronous, all-or-nothing transition on the entities
//! it is handed. The host runtime owns account storage, addressing and the
//! token-transfer primitive; it passes entities in, persists them only when
//! the operation (and every transfer the operation requests) succeeds, and
//! hands vacant storage slots in as `None`.

pub mod claims;
pub mod errors;
pub mod hashing;
pub mod keys;
pub mod machine;
pub mod market;
pub mod merkle;
pub mod progress;
pub mod voucher;
