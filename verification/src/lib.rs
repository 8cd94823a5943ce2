//! Derivation of human-readable token prices from Uniswap V2/V3 on-chain
//! state.

pub mod chain;
pub mod decimal;
pub mod global;
pub mod price;
pub mod ratio;
pub mod tool;
pub mod types;
pub mod v2;
pub mod v3;
