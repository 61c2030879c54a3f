//! A two-asset liquidity pool: a reserve of the native currency and a reserve
//! of one fungible token, with deposits, fixed-ratio swaps and an
//! administrative pause. Value transfers are carried out by the caller; the
//! library decides which transfers an operation needs and what the pool
//! record becomes once they have all gone through.
pub mod account;
pub mod error;
pub mod pool;
pub mod transfer;
pub mod accounts;
pub mod controller;
pub mod laws;
pub mod store;
