//! State-transition logic of a two-asset constant-product liquidity pool.
//!
//! The library decides, for each operation, whether it is admitted and what
//! it does: which requests go to the token ledger, in which order, and what
//! the pool record holds afterwards. Every function is verified against a
//! contract over plain mathematical values.

pub mod account;
pub mod error;
pub mod instruction;
pub mod math;
pub mod processor;
pub mod state;
pub mod validator;

pub use crate::error::LiquidityPoolError;
