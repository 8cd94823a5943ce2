//! The Uniswap V2 reader: token metadata, pair state, and the raw
//! (undecimaled) pair price, each derived from the recorded chain
//! observations.

use vstd::prelude::*;
use crate::chain::{ChainView, TokenObs};
use crate::ratio::PriceRatio;
use crate::types::{Address, PoolInfo, PriceData, TokenInfo, UniswapError};

verus! {

/// Reads Uniswap V2 pair and ERC-20 state out of a chain snapshot.
#[derive(Debug, Clone, Copy, PartialEq, Eq, Structural)]
pub struct UniswapV2 {}

/// The token record built from an observed metadata answer.
pub open spec fn spec_token_info(address: Address, o: TokenObs) -> TokenInfo {
    TokenInfo { address, symbol: o.symbol, decimals: o.decimals, name: o.name }
}

/// The pool record a V2 pair lookup yields: the pair's observed state
/// with both constituent tokens' metadata resolved, `None` when any of
/// the underlying reads is unavailable.
pub open spec fn spec_pool_info_v2(chain: ChainView, pool: Address) -> Option<PoolInfo> {
    match chain.spec_v2_pool(pool) {
        Some(o) => match (chain.spec_token(o.token0), chain.spec_token(o.token1)) {
            (Some(t0), Some(t1)) => Some(
                PoolInfo {
                    address: pool,
                    token0: spec_token_info(o.token0, t0),
                    token1: spec_token_info(o.token1, t1),
                    reserve0: o.reserve0,
                    reserve1: o.reserve1,
                    liquidity: o.total_supply,
                },
            ),
            _ => None,
        },
        None => None,
    }
}

/// The raw quote-per-base price of a pair: `reserve_quote /
/// reserve_base`, or zero when the base reserve is empty (the V2 raw
/// price reader reports an empty pool as a zero price).
pub open spec fn spec_raw_price(reserve_base: u128, reserve_quote: u128) -> PriceRatio {
    if reserve_base != 0 {
        PriceRatio::Scaled { num: reserve_quote, den: reserve_base, exp10: 0 }
    } else {
        PriceRatio::Scaled { num: 0, den: 1, exp10: 0 }
    }
}

impl UniswapV2 {
    /// Resolves a token's metadata from the observations; fails exactly
    /// when the metadata read is unavailable.
    pub fn get_token_info(&self, chain: &ChainView, address: Address) -> (r: Result<
        TokenInfo,
        UniswapError,
    >)
        ensures
            r is Ok <==> chain.spec_token(address) is Some,
            r is Ok ==> r->Ok_0 == spec_token_info(address, chain.spec_token(address)->Some_0),
            r is Err ==> r->Err_0 is ContractError,
    {
        match chain.token_answer(address) {
            Ok(o) => Ok(
                TokenInfo { address, symbol: o.symbol, decimals: o.decimals, name: o.name },
            ),
            Err(e) => Err(e),
        }
    }

    /// Resolves a pair's full pool record: constituent tokens with
    /// metadata, raw reserves, and total supply as the liquidity proxy.
    /// Fails exactly when the pair state or either token's metadata is
    /// unavailable.
    pub fn get_pool_info(&self, chain: &ChainView, pool_address: Address) -> (r: Result<
        PoolInfo,
        UniswapError,
    >)
        ensures
            r is Ok <==> spec_pool_info_v2(*chain, pool_address) is Some,
            r is Ok ==> r->Ok_0 == spec_pool_info_v2(*chain, pool_address)->Some_0,
            r is Err ==> r->Err_0 is ContractError,
    {
        let obs = match chain.v2_pool_answer(pool_address) {
            Ok(o) => o,
            Err(e) => {
                return Err(e);
            },
        };
        let token0 = match self.get_token_info(chain, obs.token0) {
            Ok(t) => t,
            Err(e) => {
                return Err(e);
            },
        };
        let token1 = match self.get_token_info(chain, obs.token1) {
            Ok(t) => t,
            Err(e) => {
                return Err(e);
            },
        };
        Ok(
            PoolInfo {
                address: pool_address,
                token0,
                token1,
                reserve0: obs.reserve0,
                reserve1: obs.reserve1,
                liquidity: obs.total_supply,
            },
        )
    }

    /// The raw quote-per-base price of a pair against `base_token`.
    /// Fails with a pool-not-found condition when neither constituent is
    /// the base token, and with a contract error when a read is
    /// unavailable; an empty base reserve yields the zero price.
    pub fn get_price(&self, chain: &ChainView, pool_address: Address, base_token: Address) -> (r:
        Result<PriceData, UniswapError>)
        ensures
            ({
                let pi = spec_pool_info_v2(*chain, pool_address);
                &&& r is Ok <==> (pi is Some && (pi->Some_0.token0.address == base_token
                    || pi->Some_0.token1.address == base_token))
                &&& r is Ok ==> ({
                    let p = pi->Some_0;
                    let reserve_base = if p.token0.address == base_token {
                        p.reserve0
                    } else {
                        p.reserve1
                    };
                    let reserve_quote = if p.token0.address == base_token {
                        p.reserve1
                    } else {
                        p.reserve0
                    };
                    &&& r->Ok_0.token0 == p.token0.address
                    &&& r->Ok_0.token1 == p.token1.address
                    &&& r->Ok_0.price == spec_raw_price(reserve_base, reserve_quote)
                    &&& r->Ok_0.liquidity == p.liquidity
                })
                &&& (pi is Some && pi->Some_0.token0.address != base_token
                    && pi->Some_0.token1.address != base_token) ==> (r is Err
                    && r->Err_0 is PoolNotFound)
                &&& pi is None ==> (r is Err && r->Err_0 is ContractError)
            }),
    {
        let pool_info = match self.get_pool_info(chain, pool_address) {
            Ok(p) => p,
            Err(e) => {
                return Err(e);
            },
        };
        let (reserve_base, reserve_quote) = if pool_info.token0.address == base_token {
            (pool_info.reserve0, pool_info.reserve1)
        } else if pool_info.token1.address == base_token {
            (pool_info.reserve1, pool_info.reserve0)
        } else {
            return Err(UniswapError::PoolNotFound);
        };
        let price = if reserve_base != 0 {
            PriceRatio::Scaled { num: reserve_quote, den: reserve_base, exp10: 0 }
        } else {
            PriceRatio::Scaled { num: 0, den: 1, exp10: 0 }
        };
        Ok(
            PriceData {
                token0: pool_info.token0.address,
                token1: pool_info.token1.address,
                price,
                liquidity: pool_info.liquidity,
            },
        )
    }
}

} // verus!
