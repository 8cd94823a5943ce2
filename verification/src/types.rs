//! Data model: addresses, token and pool records, aggregated price
//! results, and the error taxonomy.
//!
//! Query results are read-only values constructed fresh per call.  Raw
//! on-chain amounts (reserves, supplies, liquidity) are held as `u128`,
//! which covers the `uint112` reserves a V2 pair reports and the supplies
//! and liquidity figures the readers consult; a price is a `PriceRatio`
//! and stays exact.  An unset optional price means "no pool
//! or no liquidity found", never a true zero price.

use vstd::prelude::*;
use crate::ratio::PriceRatio;

verus! {

/// A 160-bit contract or account address, split into a high 32-bit and a
/// low 128-bit limb.
#[derive(Debug, Clone, Copy, PartialEq, Eq, Structural, Hash)]
pub struct Address {
    pub hi: u32,
    pub lo: u128,
}

impl Address {
    /// The 160-bit value the two limbs denote.
    pub open spec fn value(self) -> nat {
        (self.hi as nat) * 0x100000000000000000000000000000000 + (self.lo as nat)
    }

    /// Whether this is the zero address (the factories' "no pool" answer).
    pub open spec fn spec_is_zero(self) -> bool {
        self.hi == 0 && self.lo == 0
    }

    /// The zero address.
    pub fn zero() -> (a: Address)
        ensures
            a.spec_is_zero(),
            a == (Address { hi: 0, lo: 0 }),
    {
        Address { hi: 0, lo: 0 }
    }

    /// Tests for the zero address.
    pub fn is_zero(&self) -> (b: bool)
        ensures
            b == self.spec_is_zero(),
    {
        self.hi == 0 && self.lo == 0
    }
}

/// Identity and scaling data of an ERC-20 token; `decimals` drives all
/// scaling math.
#[derive(Debug, Clone)]
pub struct TokenInfo {
    pub address: Address,
    pub symbol: String,
    pub decimals: u8,
    pub name: String,
}

/// A liquidity pool's constituents and raw state.  `token0`/`token1`
/// order is protocol-defined; reserves are raw integer base units.  A V3
/// pool reports no simple reserves, so both stay zero there.
#[derive(Debug, Clone)]
pub struct PoolInfo {
    pub address: Address,
    pub token0: TokenInfo,
    pub token1: TokenInfo,
    pub reserve0: u128,
    pub reserve1: u128,
    pub liquidity: u128,
}

/// A swap observed on a pair.
#[derive(Debug, Clone, Copy, PartialEq, Eq, Structural)]
pub struct TxHash {
    pub hi: u128,
    pub lo: u128,
}

/// A swap event's payload.
#[derive(Debug, Clone)]
pub struct SwapEvent {
    pub tx_hash: TxHash,
    pub sender: Address,
    pub amount0_in: u128,
    pub amount1_in: u128,
    pub amount0_out: u128,
    pub amount1_out: u128,
    pub to: Address,
    pub timestamp: u64,
}

/// A raw (undecimaled) pool price: token1 per token0.
#[derive(Debug)]
pub struct PriceData {
    pub token0: Address,
    pub token1: Address,
    pub price: PriceRatio,
    pub liquidity: u128,
}

/// The receipt of a submitted transaction.
#[derive(Debug, Clone)]
pub struct TransactionResult {
    pub tx_hash: TxHash,
    pub status: bool,
    pub gas_used: u128,
    pub block_number: u64,
}

/// A token transfer order.
#[derive(Debug, Clone)]
pub struct TransferRequest {
    pub token_address: Address,
    pub to: Address,
    pub amount: u128,
    pub gas_limit: Option<u128>,
    pub gas_price: Option<u128>,
}

/// A swap order; the slippage allowance is held exactly, in basis points.
#[derive(Debug, Clone)]
pub struct SwapRequest {
    pub token_in: Address,
    pub token_out: Address,
    pub amount_in: u128,
    pub recipient: Address,
    pub deadline: u64,
    pub slippage_bps: u32,
}

/// The aggregated pricing result for one token.  Every price field is
/// optional: an unset field means that quote source found no pool or its
/// lookup failed, never that the price is zero.
#[derive(Debug)]
pub struct TokenPriceInfo {
    pub token_address: Address,
    pub token_symbol: String,
    pub token_name: String,
    pub decimals: u8,
    pub eth_price: Option<PriceRatio>,
    pub usd_price: Option<PriceRatio>,
    pub usdc_price: Option<PriceRatio>,
    pub usdt_price: Option<PriceRatio>,
    pub dai_price: Option<PriceRatio>,
    pub liquidity: u128,
    pub price_source: String,
    pub last_updated: u64,
}

/// The fixed addresses a price finder works against.
#[derive(Debug, Clone, Copy, PartialEq, Eq, Structural)]
pub struct PriceFinder {
    pub weth_address: Address,
    pub usdc_address: Address,
    pub usdt_address: Address,
    pub dai_address: Address,
    pub factory_v2: Address,
    pub factory_v3: Address,
}

/// Everything that can go wrong while reading on-chain state.
#[derive(Debug)]
pub enum UniswapError {
    /// A transport-level failure.
    HttpError(String),
    /// A provider-level failure.
    EthersError(String),
    /// A failed on-chain read, wrapping the failing call's description.
    ContractError(String),
    /// A malformed address string.
    InvalidAddress(String),
    /// The factory lookup returned the zero address.
    PoolNotFound,
    /// A submitted transaction failed.
    TransactionFailed(String),
    /// Not enough balance for a transfer.
    InsufficientBalance,
    /// A wallet-level failure.
    WalletError(String),
}

} // verus!
