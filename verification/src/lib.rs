//! Escrow-with-dispute state machine and k-of-n approval engine.
//!
//! The engines are plain values. Each operation takes what the hosting
//! environment knows (the caller it has authenticated, the clock reading,
//! a balance it has looked up) and returns the new state together with the
//! token movement and the event that the host has to carry out.
//!
//! - `escrow`: the escrow engine and its admin gate; `record` holds its
//!   data, `model` the state machine it is proved against, `laws` what
//!   holds of that machine, `naming` the names of escrows.
//! - `multisig`: the approval engine.
//! - `principal`, `errors`: identities and failure conditions.
//! - `utils`, `conversion`, `pool_manager`, `nonce`, `rate_lock`,
//!   `email_to_wallet`: amount, rate and address helpers.

pub mod conversion;
pub mod email_to_wallet;
pub mod errors;
pub mod escrow;
pub mod laws;
pub mod model;
pub mod multisig;
pub mod naming;
pub mod nonce;
pub mod pool_manager;
pub mod principal;
pub mod rate_lock;
pub mod record;
pub mod utils;
