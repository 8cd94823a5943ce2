//! Fixed mainnet configuration constants: the Uniswap factories, the
//! wrapped-ether token, and the stablecoin basket.  These are compile-time
//! constants, not discovered at runtime; each address is spelled both as
//! its canonical hex string and as its 160-bit value.

use vstd::prelude::*;
use crate::types::Address;

verus! {

/// Mainnet Uniswap V2 factory address.
pub const MAINNET_UNISWAP_V2_FACTORY_ADDRESS: &'static str = "0x5C69bEe701ef814a2B6a3EDD4B1652CB9cc5aA6f";

/// Mainnet Uniswap V3 factory address.
pub const MAINNET_UNISWAP_V3_FACTORY_ADDRESS: &'static str = "0x1F98431c8aD98523631AE4a59f267346ea31F984";

/// Mainnet WETH address.
pub const WETH_ADDRESS: &'static str = "0xC02aaA39b223FE8D0A0e5C4F27eAD9083C756Cc2";

/// Mainnet USDC address.
pub const USDC_ADDRESS: &'static str = "0xA0b86991c6218b36c1d19D4a2e9Eb0cE3606eB48";

/// Mainnet USDT address.
pub const USDT_ADDRESS: &'static str = "0xdAC17F958D2ee523a2206206994597C13D831ec7";

/// Mainnet DAI address.
pub const DAI_ADDRESS: &'static str = "0x6B175474E89094C44Da98b954EedeAC495271d0F";

/// Mainnet WBTC address.
pub const WBTC_ADDRESS: &'static str = "0x2260FAC5E5542a773Aa44fBCfeDf7C193bc2C599";

/// The value of the mainnet Uniswap V2 factory address.
pub open spec fn spec_v2_factory_address() -> Address {
    Address { hi: 0x5c69bee7, lo: 0x01ef814a2b6a3edd4b1652cb9cc5aa6f }
}

/// The value of the mainnet Uniswap V3 factory address.
pub open spec fn spec_v3_factory_address() -> Address {
    Address { hi: 0x1f98431c, lo: 0x8ad98523631ae4a59f267346ea31f984 }
}

/// The value of the mainnet WETH address.
pub open spec fn spec_weth_address() -> Address {
    Address { hi: 0xc02aaa39, lo: 0xb223fe8d0a0e5c4f27ead9083c756cc2 }
}

/// The value of the mainnet USDC address.
pub open spec fn spec_usdc_address() -> Address {
    Address { hi: 0xa0b86991, lo: 0xc6218b36c1d19d4a2e9eb0ce3606eb48 }
}

/// The value of the mainnet USDT address.
pub open spec fn spec_usdt_address() -> Address {
    Address { hi: 0xdac17f95, lo: 0x8d2ee523a2206206994597c13d831ec7 }
}

/// The value of the mainnet DAI address.
pub open spec fn spec_dai_address() -> Address {
    Address { hi: 0x6b175474, lo: 0xe89094c44da98b954eedeac495271d0f }
}

/// The value of the mainnet WBTC address.
pub open spec fn spec_wbtc_address() -> Address {
    Address { hi: 0x2260fac5, lo: 0xe5542a773aa44fbcfedf7c193bc2c599 }
}

/// The mainnet Uniswap V2 factory address.
pub fn v2_factory_address() -> (a: Address)
    ensures
        a == spec_v2_factory_address(),
{
    Address { hi: 0x5c69bee7, lo: 0x01ef814a2b6a3edd4b1652cb9cc5aa6f }
}

/// The mainnet Uniswap V3 factory address.
pub fn v3_factory_address() -> (a: Address)
    ensures
        a == spec_v3_factory_address(),
{
    Address { hi: 0x1f98431c, lo: 0x8ad98523631ae4a59f267346ea31f984 }
}

/// The mainnet WETH address.
pub fn weth_address() -> (a: Address)
    ensures
        a == spec_weth_address(),
{
    Address { hi: 0xc02aaa39, lo: 0xb223fe8d0a0e5c4f27ead9083c756cc2 }
}

/// The mainnet USDC address.
pub fn usdc_address() -> (a: Address)
    ensures
        a == spec_usdc_address(),
{
    Address { hi: 0xa0b86991, lo: 0xc6218b36c1d19d4a2e9eb0ce3606eb48 }
}

/// The mainnet USDT address.
pub fn usdt_address() -> (a: Address)
    ensures
        a == spec_usdt_address(),
{
    Address { hi: 0xdac17f95, lo: 0x8d2ee523a2206206994597c13d831ec7 }
}

/// The mainnet DAI address.
pub fn dai_address() -> (a: Address)
    ensures
        a == spec_dai_address(),
{
    Address { hi: 0x6b175474, lo: 0xe89094c44da98b954eedeac495271d0f }
}

/// The mainnet WBTC address.
pub fn wbtc_address() -> (a: Address)
    ensures
        a == spec_wbtc_address(),
{
    Address { hi: 0x2260fac5, lo: 0xe5542a773aa44fbcfedf7c193bc2c599 }
}

} // verus!
