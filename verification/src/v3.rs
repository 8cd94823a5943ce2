//! The Uniswap V3 reader: token metadata, pool state, and the price a
//! pool's Q64.96 square-root price encodes, each derived from the
//! recorded chain observations.

use vstd::prelude::*;
use crate::chain::ChainView;
use crate::ratio::{spec_v3_ratio, PriceRatio};
use crate::types::{Address, PoolInfo, PriceData, TokenInfo, UniswapError};
use crate::v2::{spec_pool_info_v2, spec_token_info};

verus! {

/// Reads Uniswap V3 pool and ERC-20 state out of a chain snapshot.
#[derive(Debug, Clone, Copy, PartialEq, Eq, Structural)]
pub struct UniswapV3 {}

/// The pool record a V3 pool lookup yields: both constituent tokens'
/// metadata and the active liquidity figure.  A V3 pool has no simple
/// reserve concept, so both reserves are zero.
pub open spec fn spec_pool_info_v3(chain: ChainView, pool: Address) -> Option<PoolInfo> {
    match chain.spec_v3_pool(pool) {
        Some(o) => match (chain.spec_token(o.token0), chain.spec_token(o.token1)) {
            (Some(t0), Some(t1)) => Some(
                PoolInfo {
                    address: pool,
                    token0: spec_token_info(o.token0, t0),
                    token1: spec_token_info(o.token1, t1),
                    reserve0: 0,
                    reserve1: 0,
                    liquidity: o.liquidity,
                },
            ),
            _ => None,
        },
        None => None,
    }
}

/// The decimals-adjusted price of `token_a` in units of `token_b` that a
/// V3 pool's slot0 value encodes, `None` when the pool state is
/// unavailable.
pub open spec fn spec_v3_price(
    chain: ChainView,
    pool: Address,
    token_a: TokenInfo,
    token_b: TokenInfo,
) -> Option<PriceRatio> {
    match chain.spec_v3_pool(pool) {
        Some(o) => Some(
            spec_v3_ratio(
                o.sqrt_price_x96,
                o.token0 != token_a.address,
                token_a.decimals,
                token_b.decimals,
            ),
        ),
        None => None,
    }
}

impl UniswapV3 {
    /// Resolves a token's metadata from the observations; fails exactly
    /// when the metadata read is unavailable.
    pub fn get_token_info(&self, chain: &ChainView, address: Address) -> (r: Result<
        TokenInfo,
        UniswapError,
    >)
        ensures
            r is Ok <==> chain.spec_token(address) is Some,
            r is Ok ==> r->Ok_0 == spec_token_info(address, chain.spec_token(address)->Some_0),
            r is Err ==> r->Err_0 is ContractError,
    {
        match chain.token_answer(address) {
            Ok(o) => Ok(
                TokenInfo { address, symbol: o.symbol, decimals: o.decimals, name: o.name },
            ),
            Err(e) => Err(e),
        }
    }

    /// The price of `token_a` in units of `token_b` encoded by the
    /// pool's slot0 value: `(sqrt_price_x96 / 2^96)^2` taken as-is when
    /// the pool's token0 is `token_a` and inverted otherwise, with the
    /// exact decimals correction `10^(token_b.decimals -
    /// token_a.decimals)` applied.
    pub fn get_price_by_token0_token1(
        &self,
        chain: &ChainView,
        pool_address: Address,
        token_a: &TokenInfo,
        token_b: &TokenInfo,
    ) -> (r: Result<PriceRatio, UniswapError>)
        ensures
            r is Ok <==> spec_v3_price(*chain, pool_address, *token_a, *token_b) is Some,
            r is Ok ==> r->Ok_0 == spec_v3_price(*chain, pool_address, *token_a, *token_b)->Some_0,
            r is Err ==> r->Err_0 is ContractError,
    {
        let obs = match chain.v3_pool_answer(pool_address) {
            Ok(o) => o,
            Err(e) => {
                return Err(e);
            },
        };
        let inverted = !(obs.token0 == token_a.address);
        let exp10: i32 = token_b.decimals as i32 - token_a.decimals as i32;
        Ok(PriceRatio::SqrtScaled { sqrt_price_x96: obs.sqrt_price_x96, inverted, exp10 })
    }

    /// Resolves a pool's full record; fails exactly when the pool state
    /// or either token's metadata is unavailable.
    pub fn get_pool_info(&self, chain: &ChainView, pool_address: Address) -> (r: Result<
        PoolInfo,
        UniswapError,
    >)
        ensures
            r is Ok <==> spec_pool_info_v3(*chain, pool_address) is Some,
            r is Ok ==> r->Ok_0 == spec_pool_info_v3(*chain, pool_address)->Some_0,
            r is Err ==> r->Err_0 is ContractError,
    {
        let obs = match chain.v3_pool_answer(pool_address) {
            Ok(o) => o,
            Err(e) => {
                return Err(e);
            },
        };
        let token0 = match self.get_token_info(chain, obs.token0) {
            Ok(t) => t,
            Err(e) => {
                return Err(e);
            },
        };
        let token1 = match self.get_token_info(chain, obs.token1) {
            Ok(t) => t,
            Err(e) => {
                return Err(e);
            },
        };
        Ok(
            PoolInfo {
                address: pool_address,
                token0,
                token1,
                reserve0: 0,
                reserve1: 0,
                liquidity: obs.liquidity,
            },
        )
    }

    /// The raw token1-per-token0 price of a pool,
    /// `sqrt_price_x96^2 / 2^192`, with the pool's liquidity figure.
    pub fn get_price(&self, chain: &ChainView, pool_address: Address) -> (r: Result<
        PriceData,
        UniswapError,
    >)
        ensures
            r is Ok <==> chain.spec_v3_pool(pool_address) is Some,
            r is Ok ==> ({
                let o = chain.spec_v3_pool(pool_address)->Some_0;
                &&& r->Ok_0.token0 == o.token0
                &&& r->Ok_0.token1 == o.token1
                &&& r->Ok_0.price == (PriceRatio::SqrtScaled {
                    sqrt_price_x96: o.sqrt_price_x96,
                    inverted: false,
                    exp10: 0,
                })
                &&& r->Ok_0.liquidity == o.liquidity
            }),
            r is Err ==> r->Err_0 is ContractError,
    {
        let obs = match chain.v3_pool_answer(pool_address) {
            Ok(o) => o,
            Err(e) => {
                return Err(e);
            },
        };
        Ok(
            PriceData {
                token0: obs.token0,
                token1: obs.token1,
                price: PriceRatio::SqrtScaled {
                    sqrt_price_x96: obs.sqrt_price_x96,
                    inverted: false,
                    exp10: 0,
                },
                liquidity: obs.liquidity,
            },
        )
    }
}

} // verus!
