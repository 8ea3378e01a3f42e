//! Settlement and custody of a two-asset liquidity pool.
//!
//! A pool holds two reserves and issues an LP token that stands for a share of both.
//! This crate keeps the pool's books: the record of each pool, the balances in its
//! custody, the fixed-point curve by which LP tokens are redeemed, and the credential
//! under which the pool, and nobody else, moves what it holds.

pub mod authority;
pub mod curve;
pub mod errors;
pub mod initialize;
pub mod state;
pub mod token;
pub mod withdraw;

pub use crate::curve::Settlement;
pub use crate::errors::AmmError;
pub use crate::initialize::{Initialize, InitializeBumps};
pub use crate::state::{Address, Config, Mint, TokenAccount, LP_DECIMALS};
pub use crate::withdraw::Withdraw;
