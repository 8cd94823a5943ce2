//! The quote aggregator: one canonical pricing result per token.
//!
//! For a subject token it derives an ETH price (V2 pair first, then the
//! V3 fee tiers 500, 3000, 10000 in that fixed order), three independent
//! stablecoin prices (USDC, USDT, DAI — a stablecoin priced against
//! itself is exactly one, with no pool lookup), and a canonical USD price
//! with the fallback order USDC, USDT, DAI, then ETH price times the
//! WETH/USDC spot price.  A division by a zero reserve is a hard error
//! ("price undefined for this pool"), never a silent infinity.

use vstd::prelude::*;
use crate::chain::{ChainView, TokenObs};
use crate::decimal::{spec_decimal_string, to_decimal_string};
use crate::global::{
    spec_dai_address, spec_usdc_address, spec_usdt_address, spec_v2_factory_address,
    spec_v3_factory_address, spec_weth_address, dai_address, usdc_address, usdt_address,
    v2_factory_address, v3_factory_address, weth_address,
};
use crate::ratio::{spec_v2_ratio, PriceRatio};
use crate::types::{Address, PoolInfo, TokenInfo, TokenPriceInfo, UniswapError};
use crate::v2::{spec_pool_info_v2, spec_token_info, UniswapV2};
use crate::v3::{spec_v3_price, UniswapV3};

verus! {

/// Relies on chrono's `Utc::now` for the wall-clock second a result is
/// stamped with; nothing is assumed of the clock's value.
#[verifier::external_body]
fn current_unix_timestamp() -> u64 {
    chrono::Utc::now().timestamp() as u64
}

/// The price aggregator: derives canonical prices against the fixed
/// mainnet factories.
#[derive(Debug, Clone, Copy, PartialEq, Eq, Structural)]
pub struct Price {
    pub v2_factory: Address,
    pub v3_factory: Address,
}

/// The reserve-quotient price of `a` in units of `b` from a pair, when it
/// is defined: `None` when neither pool token is `a` or when `a`'s
/// matched reserve is zero.
pub open spec fn spec_calc_price_opt(pool: PoolInfo, a: TokenInfo, b: TokenInfo) -> Option<
    PriceRatio,
> {
    if pool.token0.address == a.address {
        if pool.reserve0 != 0 {
            Some(spec_v2_ratio(pool.reserve0, a.decimals, pool.reserve1, b.decimals))
        } else {
            None
        }
    } else if pool.token1.address == a.address {
        if pool.reserve1 != 0 {
            Some(spec_v2_ratio(pool.reserve1, a.decimals, pool.reserve0, b.decimals))
        } else {
            None
        }
    } else {
        None
    }
}

impl Price {
    /// A fresh aggregator against the mainnet factory addresses.
    pub fn new() -> (r: Result<Price, ()>)
        ensures
            r is Ok,
            r->Ok_0.v2_factory == spec_v2_factory_address(),
            r->Ok_0.v3_factory == spec_v3_factory_address(),
    {
        let v2_factory = v2_factory_address();
        let v3_factory = v3_factory_address();
        Ok(Price { v2_factory, v3_factory })
    }

    /// Renders a raw amount as the exact decimal numeral for
    /// `value / 10^decimals` (see the decimal converter's lemmas for
    /// what the numeral denotes).
    pub fn to_decimal(&self, value: u128, decimals: u8) -> (s: String)
        ensures
            s@ == spec_decimal_string(value as nat, decimals as nat),
    {
        to_decimal_string(value, decimals)
    }

    /// The price of one unit of `token_a` in units of `token_b` from a
    /// pair's reserves, decimals-normalized.  Fails with a pool-mismatch
    /// condition when neither pool token is `token_a`, and hard-fails
    /// ("price undefined") when `token_a`'s matched reserve is zero
    /// instead of producing an unbounded value.
    pub fn calc_price(&self, pool_info: &PoolInfo, token_a: &TokenInfo, token_b: &TokenInfo) -> (r:
        Result<PriceRatio, UniswapError>)
        ensures
            r is Ok <==> spec_calc_price_opt(*pool_info, *token_a, *token_b) is Some,
            r is Ok ==> r->Ok_0 == spec_calc_price_opt(*pool_info, *token_a, *token_b)->Some_0,
            r is Ok ==> r->Ok_0.wf(),
            (pool_info.token0.address != token_a.address && pool_info.token1.address
                != token_a.address) ==> (r is Err && r->Err_0 is PoolNotFound),
            ((pool_info.token0.address == token_a.address && pool_info.reserve0 == 0) || (
            pool_info.token0.address != token_a.address && pool_info.token1.address
                == token_a.address && pool_info.reserve1 == 0)) ==> (r is Err
                && r->Err_0 is ContractError),
    {
        let (reserve_a, reserve_b) = if pool_info.token0.address == token_a.address {
            (pool_info.reserve0, pool_info.reserve1)
        } else if pool_info.token1.address == token_a.address {
            (pool_info.reserve1, pool_info.reserve0)
        } else {
            return Err(UniswapError::PoolNotFound);
        };
        if reserve_a == 0 {
            return Err(
                UniswapError::ContractError("price undefined: zero base reserve".to_owned()),
            );
        }
        let exp10: i32 = token_a.decimals as i32 - token_b.decimals as i32;
        Ok(PriceRatio::Scaled { num: reserve_b, den: reserve_a, exp10 })
    }

    /// Resolves a token's metadata; a token that cannot be identified
    /// cannot be priced, so this failure propagates to the caller.
    pub fn get_token_info(&self, chain: &ChainView, address: Address) -> (r: Result<
        TokenInfo,
        UniswapError,
    >)
        ensures
            r is Ok <==> chain.spec_token(address) is Some,
            r is Ok ==> r->Ok_0 == spec_token_info(address, chain.spec_token(address)->Some_0),
            r is Err ==> r->Err_0 is ContractError,
    {
        let uniswap_v2 = UniswapV2 {  };
        uniswap_v2.get_token_info(chain, address)
    }

    /// The token's price in ETH from the V2 pair against WETH, when the
    /// whole lookup chain succeeds: WETH metadata, a non-zero `getPair`
    /// answer, the pair's state, and a defined price.
    fn get_eth_price_with_decimals(&self, chain: &ChainView, token_info: &TokenInfo) -> (r: Result<
        PriceRatio,
        UniswapError,
    >)
        ensures
            r is Ok <==> spec_eth_v2_quote(*chain, self.v2_factory, *token_info) is Some,
            r is Ok ==> r->Ok_0 == spec_eth_v2_quote(*chain, self.v2_factory, *token_info)->Some_0,
            r is Err ==> (r->Err_0 is ContractError || r->Err_0 is PoolNotFound),
    {
        let weth_addr = weth_address();
        let weth_info = match self.get_token_info(chain, weth_addr) {
            Ok(t) => t,
            Err(e) => {
                return Err(e);
            },
        };
        let pair_address = match chain.pair_answer(self.v2_factory, token_info.address, weth_addr) {
            Ok(p) => p,
            Err(e) => {
                return Err(e);
            },
        };
        if pair_address.is_zero() {
            return Err(UniswapError::PoolNotFound);
        }
        let uniswap_v2 = UniswapV2 {  };
        let pool_info = match uniswap_v2.get_pool_info(chain, pair_address) {
            Ok(p) => p,
            Err(e) => {
                return Err(e);
            },
        };
        self.calc_price(&pool_info, token_info, &weth_info)
    }

    /// One aggregated pricing result for the token: identity fields, the
    /// ETH price with its venue tag, the three stablecoin quotes (each
    /// attempted independently), and the resolved USD price.  Fails
    /// exactly when the token's own metadata cannot be resolved; every
    /// per-quote-source failure only leaves its field unset.
    pub fn get_token_prices_by_token_address(&self, chain: &ChainView, token_address: Address) -> (
        r: Result<TokenPriceInfo, UniswapError>)
        ensures
            r is Ok <==> chain.spec_token(token_address) is Some,
            r is Err ==> r->Err_0 is ContractError,
            r is Ok ==> token_price_info_ok(
                *chain,
                self.v2_factory,
                self.v3_factory,
                token_address,
                r->Ok_0,
            ),
    {
        let token_info = match self.get_token_info(chain, token_address) {
            Ok(t) => t,
            Err(e) => {
                return Err(e);
            },
        };
        let mut eth_price: Option<PriceRatio> = None;
        let mut price_source: String = "Unknown".to_owned();
        match self.get_eth_price_with_decimals(chain, &token_info) {
            Ok(p) => {
                eth_price = Some(p);
                price_source = "Uniswap V2".to_owned();
            },
            Err(_) => {
                match self.get_eth_price_by_v3(chain, &token_info) {
                    Ok(p) => {
                        eth_price = Some(p);
                        price_source = "Uniswap V3".to_owned();
                    },
                    Err(_) => {},
                }
            },
        }
        let usdc_price = match self.get_stablecoin_price(chain, &token_info, "USDC") {
            Ok(p) => Some(p),
            Err(_) => None,
        };
        let usdt_price = match self.get_stablecoin_price(chain, &token_info, "USDT") {
            Ok(p) => Some(p),
            Err(_) => None,
        };
        let dai_price = match self.get_stablecoin_price(chain, &token_info, "DAI") {
            Ok(p) => Some(p),
            Err(_) => None,
        };
        proof {
            reveal_strlit("USDC");
            reveal_strlit("USDT");
            reveal_strlit("DAI");
            assert(spec_stablecoin_address("USDC"@) == spec_usdc_address());
            assert("USDT"@ != "USDC"@) by {
                assert("USDT"@[3] != "USDC"@[3]);
            }
            assert(spec_stablecoin_address("USDT"@) == spec_usdt_address());
            assert("DAI"@ != "USDC"@) by {
                assert("DAI"@.len() != "USDC"@.len());
            }
            assert("DAI"@ != "USDT"@) by {
                assert("DAI"@.len() != "USDT"@.len());
            }
            assert(spec_stablecoin_address("DAI"@) == spec_dai_address());
        }
        let mut price_info = TokenPriceInfo {
            token_address,
            token_symbol: token_info.symbol.clone(),
            token_name: token_info.name.clone(),
            decimals: token_info.decimals,
            eth_price,
            usd_price: None,
            usdc_price,
            usdt_price,
            dai_price,
            liquidity: 0,
            price_source,
            last_updated: current_unix_timestamp(),
        };
        price_info.usd_price = self.calc_usd_price(chain, &price_info);
        Ok(price_info)
    }

    /// The token's price in ETH from the V3 pools against WETH, probing
    /// the fee tiers 500, 3000, 10000 in that fixed order and returning
    /// the first successful non-zero-address pool's price.  A factory
    /// read failure ends the search; an exhausted search is a
    /// pool-not-found condition.
    fn get_eth_price_by_v3(&self, chain: &ChainView, token_info: &TokenInfo) -> (r: Result<
        PriceRatio,
        UniswapError,
    >)
        ensures
            chain.spec_token(spec_weth_address()) is None ==> (r is Err
                && r->Err_0 is ContractError),
            chain.spec_token(spec_weth_address()) matches Some(weth_obs) ==> ({
                let weth = spec_token_info(spec_weth_address(), weth_obs);
                match spec_eth_v3_search(
                    *chain,
                    self.v3_factory,
                    *token_info,
                    weth,
                    spec_fee_tiers(),
                ) {
                    EthV3Outcome::Found(p) => r == Ok::<PriceRatio, UniswapError>(p),
                    EthV3Outcome::Failed => r is Err && r->Err_0 is ContractError,
                    EthV3Outcome::NotFound => r is Err && r->Err_0 is PoolNotFound,
                }
            }),
    {
        let weth_addr = weth_address();
        let weth_info = match self.get_token_info(chain, weth_addr) {
            Ok(t) => t,
            Err(e) => {
                return Err(e);
            },
        };
        let fees: Vec<u32> = vec![500, 3000, 10000];
        proof {
            assert(fees@ =~= spec_fee_tiers());
            assert(spec_fee_tiers().skip(0) =~= spec_fee_tiers());
        }
        let uniswap_v3 = UniswapV3 {  };
        let mut i: usize = 0;
        while i < fees.len()
            invariant
                i <= fees@.len(),
                fees@ == spec_fee_tiers(),
                weth_addr == spec_weth_address(),
                weth_info == spec_token_info(
                    spec_weth_address(),
                    chain.spec_token(spec_weth_address())->Some_0,
                ),
                chain.spec_token(spec_weth_address()) is Some,
                spec_eth_v3_search(*chain, self.v3_factory, *token_info, weth_info, spec_fee_tiers())
                    == spec_eth_v3_search(
                    *chain,
                    self.v3_factory,
                    *token_info,
                    weth_info,
                    spec_fee_tiers().skip(i as int),
                ),
            decreases fees@.len() - i,
        {
            let fee = fees[i];
            proof {
                assert(spec_fee_tiers().skip(i as int)[0] == spec_fee_tiers()[i as int]);
            }
            let pool_address = match chain.pool_v3_answer(
                self.v3_factory,
                token_info.address,
                weth_addr,
                fee,
            ) {
                Ok(p) => p,
                Err(e) => {
                    return Err(e);
                },
            };
            if !pool_address.is_zero() {
                match uniswap_v3.get_price_by_token0_token1(
                    chain,
                    pool_address,
                    token_info,
                    &weth_info,
                ) {
                    Ok(price) => {
                        return Ok(price);
                    },
                    Err(_) => {},
                }
            }
            proof {
                assert(spec_fee_tiers().skip(i as int).drop_first() =~= spec_fee_tiers().skip(
                    i as int + 1,
                ));
            }
            i = i + 1;
        }
        proof {
            assert(spec_fee_tiers().skip(3) =~= Seq::<u32>::empty());
        }
        Err(UniswapError::PoolNotFound)
    }

    /// One stablecoin quote: the subject token priced against the named
    /// stablecoin ("USDC", "USDT" or "DAI"; anything else falls back to
    /// USDT).  A stablecoin priced against itself is exactly one, with
    /// no pool lookup — the answer is the same whatever the chain
    /// observations hold.
    fn get_stablecoin_price(&self, chain: &ChainView, token_info: &TokenInfo, stablecoin: &str) -> (
        r: Result<PriceRatio, UniswapError>)
        ensures
            r is Ok <==> spec_stablecoin_quote(
                *chain,
                self.v2_factory,
                *token_info,
                spec_stablecoin_address(stablecoin@),
            ) is Some,
            r is Ok ==> r->Ok_0 == spec_stablecoin_quote(
                *chain,
                self.v2_factory,
                *token_info,
                spec_stablecoin_address(stablecoin@),
            )->Some_0,
            token_info.address == spec_stablecoin_address(stablecoin@) ==> r == Ok::<
                PriceRatio,
                UniswapError,
            >(PriceRatio::Scaled { num: 1u128, den: 1u128, exp10: 0i32 }),
            r is Err ==> (r->Err_0 is ContractError || r->Err_0 is PoolNotFound),
    {
        let stablecoin_address: Address = if str_eq(stablecoin, "USDC") {
            usdc_address()
        } else if str_eq(stablecoin, "USDT") {
            usdt_address()
        } else if str_eq(stablecoin, "DAI") {
            dai_address()
        } else {
            usdt_address()
        };
        if token_info.address == stablecoin_address {
            return Ok(PriceRatio::one());
        }
        let stablecoin_info = match self.get_token_info(chain, stablecoin_address) {
            Ok(t) => t,
            Err(e) => {
                return Err(e);
            },
        };
        let pair_address = match chain.pair_answer(
            self.v2_factory,
            token_info.address,
            stablecoin_address,
        ) {
            Ok(p) => p,
            Err(e) => {
                return Err(e);
            },
        };
        if pair_address.is_zero() {
            return Err(UniswapError::PoolNotFound);
        }
        let uniswap_v2 = UniswapV2 {  };
        let pool_info = match uniswap_v2.get_pool_info(chain, pair_address) {
            Ok(p) => p,
            Err(e) => {
                return Err(e);
            },
        };
        self.calc_price(&pool_info, token_info, &stablecoin_info)
    }

    /// Prices each token of the batch independently: a token whose whole
    /// pricing fails (its metadata cannot be resolved) is omitted from
    /// the result, in order, and never aborts the batch.
    pub fn get_multiple_prices_by_token_address_vec(
        &self,
        chain: &ChainView,
        token_addresses: Vec<Address>,
    ) -> (r: Result<Vec<TokenPriceInfo>, UniswapError>)
        ensures
            r is Ok,
            ({
                let priced = spec_priced_addrs(*chain, token_addresses@);
                let out = r->Ok_0;
                &&& out@.len() == priced.len()
                &&& forall|j: int|
                    0 <= j < priced.len() ==> (#[trigger] out@[j]).token_address == priced[j]
                        && token_price_info_ok(
                        *chain,
                        self.v2_factory,
                        self.v3_factory,
                        priced[j],
                        out@[j],
                    )
            }),
    {
        let mut results: Vec<TokenPriceInfo> = Vec::new();
        let n = token_addresses.len();
        let mut i: usize = 0;
        proof {
            assert(token_addresses@.take(0) =~= Seq::<Address>::empty());
        }
        while i < n
            invariant
                i <= n,
                n == token_addresses@.len(),
                ({
                    let priced = spec_priced_addrs(*chain, token_addresses@.take(i as int));
                    &&& results@.len() == priced.len()
                    &&& forall|j: int|
                        0 <= j < priced.len() ==> (#[trigger] results@[j]).token_address
                            == priced[j] && token_price_info_ok(
                            *chain,
                            self.v2_factory,
                            self.v3_factory,
                            priced[j],
                            results@[j],
                        )
                }),
            decreases n - i,
        {
            let address = token_addresses[i];
            match self.get_token_prices_by_token_address(chain, address) {
                Ok(price_info) => {
                    results.push(price_info);
                },
                Err(_) => {},
            }
            proof {
                assert(token_addresses@.take(i as int + 1).drop_last() =~= token_addresses@.take(
                    i as int,
                ));
                assert(token_addresses@.take(i as int + 1).last() == token_addresses@[i as int]);
            }
            i = i + 1;
        }
        proof {
            assert(token_addresses@.take(n as int) =~= token_addresses@);
        }
        Ok(results)
    }

    /// Enumerates the V2 pools of the token against the fixed basket
    /// WETH, USDC, USDT, DAI, in that order, keeping only pools whose
    /// two reserves are both non-zero.  No ranking is performed.  A
    /// factory read failure aborts the search; so does an unresolvable
    /// subject token.
    pub fn search_liquid_pools(&self, chain: &ChainView, token_address: Address) -> (r: Result<
        Vec<PoolInfo>,
        UniswapError,
    >)
        ensures
            chain.spec_token(token_address) is None ==> (r is Err && r->Err_0 is ContractError),
            chain.spec_token(token_address) is Some ==> (match spec_liquid_pools(
                *chain,
                self.v2_factory,
                token_address,
                spec_basket(),
            ) {
                None => r is Err && r->Err_0 is ContractError,
                Some(ps) => r is Ok && r->Ok_0@ == ps,
            }),
    {
        let mut pools: Vec<PoolInfo> = Vec::new();
        let token_info = match self.get_token_info(chain, token_address) {
            Ok(t) => t,
            Err(e) => {
                return Err(e);
            },
        };
        let base_tokens: Vec<Address> = vec![
            weth_address(),
            usdc_address(),
            usdt_address(),
            dai_address(),
        ];
        proof {
            assert(base_tokens@ =~= spec_basket());
            assert(spec_basket().skip(0) =~= spec_basket());
        }
        let uniswap_v2 = UniswapV2 {  };
        let mut i: usize = 0;
        while i < base_tokens.len()
            invariant
                i <= base_tokens@.len(),
                base_tokens@ == spec_basket(),
                ({
                    let full = spec_liquid_pools(
                        *chain,
                        self.v2_factory,
                        token_address,
                        spec_basket(),
                    );
                    match spec_liquid_pools(
                        *chain,
                        self.v2_factory,
                        token_address,
                        spec_basket().skip(i as int),
                    ) {
                        None => full is None,
                        Some(tail) => full == Some(pools@ + tail),
                    }
                }),
            decreases base_tokens@.len() - i,
        {
            let base_token = base_tokens[i];
            proof {
                assert(spec_basket().skip(i as int)[0] == spec_basket()[i as int]);
            }
            let ghost prev = pools@;
            let pair_address = match chain.pair_answer(self.v2_factory, token_address, base_token) {
                Ok(p) => p,
                Err(e) => {
                    return Err(e);
                },
            };
            if !pair_address.is_zero() {
                match uniswap_v2.get_pool_info(chain, pair_address) {
                    Ok(pool_info) => {
                        if pool_info.reserve0 != 0 && pool_info.reserve1 != 0 {
                            pools.push(pool_info);
                            proof {
                                assert(pools@ =~= prev + spec_basket_head(*chain, pair_address));
                            }
                        } else {
                            proof {
                                assert(pools@ =~= prev + spec_basket_head(*chain, pair_address));
                            }
                        }
                    },
                    Err(_) => {
                        proof {
                            assert(pools@ =~= prev + spec_basket_head(*chain, pair_address));
                        }
                    },
                }
            } else {
                proof {
                    assert(pools@ =~= prev + spec_basket_head(*chain, pair_address));
                }
            }
            proof {
                assert(spec_basket().skip(i as int).drop_first() =~= spec_basket().skip(
                    i as int + 1,
                ));
                let full = spec_liquid_pools(*chain, self.v2_factory, token_address, spec_basket());
                match spec_liquid_pools(
                    *chain,
                    self.v2_factory,
                    token_address,
                    spec_basket().skip(i as int + 1),
                ) {
                    Some(tail) => {
                        assert(prev + (spec_basket_head(*chain, pair_address) + tail) =~= pools@
                            + tail);
                    },
                    None => {},
                }
            }
            i = i + 1;
        }
        proof {
            assert(spec_basket().skip(4) =~= Seq::<Address>::empty());
            assert(pools@ + Seq::<PoolInfo>::empty() =~= pools@);
        }
        Ok(pools)
    }

    /// The WETH/USDC spot price from the V2 pair, the last-resort factor
    /// for the USD fallback.
    fn get_eth_usd_price(&self, chain: &ChainView) -> (r: Result<PriceRatio, UniswapError>)
        ensures
            r is Ok <==> spec_eth_usd_quote(*chain, self.v2_factory) is Some,
            r is Ok ==> r->Ok_0 == spec_eth_usd_quote(*chain, self.v2_factory)->Some_0,
            r is Err ==> (r->Err_0 is ContractError || r->Err_0 is PoolNotFound),
    {
        let weth_addr = weth_address();
        let usdc_addr = usdc_address();
        let weth_info = match self.get_token_info(chain, weth_addr) {
            Ok(t) => t,
            Err(e) => {
                return Err(e);
            },
        };
        let usdc_info = match self.get_token_info(chain, usdc_addr) {
            Ok(t) => t,
            Err(e) => {
                return Err(e);
            },
        };
        let pair_address = match chain.pair_answer(self.v2_factory, weth_addr, usdc_addr) {
            Ok(p) => p,
            Err(e) => {
                return Err(e);
            },
        };
        if pair_address.is_zero() {
            return Err(UniswapError::PoolNotFound);
        }
        let uniswap_v2 = UniswapV2 {  };
        let pool_info = match uniswap_v2.get_pool_info(chain, pair_address) {
            Ok(p) => p,
            Err(e) => {
                return Err(e);
            },
        };
        self.calc_price(&pool_info, &weth_info, &usdc_info)
    }

    /// The canonical USD price, first present source wins: the USDC
    /// quote, then USDT, then DAI, and as last resort the ETH price
    /// times the WETH/USDC spot price.  `None` when no source resolves —
    /// an incomplete result, not an error.
    fn calc_usd_price(&self, chain: &ChainView, price_info: &TokenPriceInfo) -> (r: Option<
        PriceRatio,
    >)
        ensures
            price_info.usdc_price matches Some(p) ==> r == Some(p),
            price_info.usdc_price is None ==> (price_info.usdt_price matches Some(p) ==> r == Some(
                p,
            )),
            (price_info.usdc_price is None && price_info.usdt_price is None) ==> (
            price_info.dai_price matches Some(p) ==> r == Some(p)),
            (price_info.usdc_price is None && price_info.usdt_price is None
                && price_info.dai_price is None) ==> (price_info.eth_price matches Some(p) ==> (
            match spec_eth_usd_quote(*chain, self.v2_factory) {
                Some(q) => {
                    &&& r matches Some(u)
                    &&& u.num() == p.num() * q.num()
                    &&& u.den() == p.den() * q.den()
                    &&& (p.wf() && q.wf() ==> u.wf())
                },
                None => r is None,
            })),
            (price_info.usdc_price is None && price_info.usdt_price is None
                && price_info.dai_price is None && price_info.eth_price is None) ==> r is None,
    {
        match &price_info.usdc_price {
            Some(p) => {
                return Some(p.duplicate());
            },
            None => {},
        }
        match &price_info.usdt_price {
            Some(p) => {
                return Some(p.duplicate());
            },
            None => {},
        }
        match &price_info.dai_price {
            Some(p) => {
                return Some(p.duplicate());
            },
            None => {},
        }
        match &price_info.eth_price {
            Some(p) => match self.get_eth_usd_price(chain) {
                Ok(q) => Some(p.duplicate().times(q)),
                Err(_) => None,
            },
            None => None,
        }
    }
}

/// Anti-symmetry of the pair price under swapping base and quote: when
/// both reserves of a pool holding exactly the two tokens are non-zero,
/// both calling orders yield a defined price and the two prices multiply
/// to exactly one (as rationals: the cross products agree).
pub proof fn lemma_calc_price_antisymmetric(pool: PoolInfo, a: TokenInfo, b: TokenInfo)
    requires
        pool.token0.address == a.address,
        pool.token1.address == b.address,
        a.address != b.address,
        pool.reserve0 != 0,
        pool.reserve1 != 0,
    ensures
        spec_calc_price_opt(pool, a, b) is Some,
        spec_calc_price_opt(pool, b, a) is Some,
        ({
            let p = spec_calc_price_opt(pool, a, b)->Some_0;
            let q = spec_calc_price_opt(pool, b, a)->Some_0;
            p.num() * q.num() == p.den() * q.den()
        }),
{
    crate::ratio::lemma_v2_price_antisymmetric(
        pool.reserve0,
        a.decimals,
        pool.reserve1,
        b.decimals,
    );
}

/// Stablecoin self-identity: a stablecoin quoted against itself is
/// exactly one, whatever the chain observations hold — no pool data
/// enters the answer.
pub proof fn lemma_stablecoin_self_identity(
    chain: ChainView,
    v2_factory: Address,
    token: TokenInfo,
    stablecoin_address: Address,
)
    requires
        token.address == stablecoin_address,
    ensures
        spec_stablecoin_quote(chain, v2_factory, token, stablecoin_address) == Some(
            PriceRatio::Scaled { num: 1u128, den: 1u128, exp10: 0i32 },
        ),
        (spec_stablecoin_quote(chain, v2_factory, token, stablecoin_address)->Some_0).is_one(),
{
    let one = PriceRatio::Scaled { num: 1u128, den: 1u128, exp10: 0i32 };
    assert(one.num() == 1 * crate::ratio::exp10_num_factor(0));
    assert(one.den() == 1 * crate::ratio::exp10_den_factor(0));
}

/// What the canonical USD price of a result must be, given its quote
/// fields: the first present source among the USDC, USDT and DAI quotes
/// wins; as last resort the ETH price times the WETH/USDC spot quote;
/// unset when no source resolves.
pub open spec fn spec_usd_ok(chain: ChainView, v2_factory: Address, info: TokenPriceInfo) -> bool {
    &&& (info.usdc_price matches Some(p) ==> info.usd_price == Some(p))
    &&& (info.usdc_price is None ==> (info.usdt_price matches Some(p) ==> info.usd_price == Some(
        p,
    )))
    &&& ((info.usdc_price is None && info.usdt_price is None) ==> (info.dai_price matches Some(p)
        ==> info.usd_price == Some(p)))
    &&& ((info.usdc_price is None && info.usdt_price is None && info.dai_price is None) ==> (
    info.eth_price matches Some(p) ==> (match spec_eth_usd_quote(chain, v2_factory) {
        Some(q) => {
            &&& info.usd_price matches Some(u)
            &&& u.num() == p.num() * q.num()
            &&& u.den() == p.den() * q.den()
            &&& (p.wf() && q.wf() ==> u.wf())
        },
        None => info.usd_price is None,
    })))
    &&& ((info.usdc_price is None && info.usdt_price is None && info.dai_price is None
        && info.eth_price is None) ==> info.usd_price is None)
}

/// What a successful aggregated result for `token_address` must hold:
/// the token's identity fields, the ETH price with its venue tag (the V2
/// pair first, else the first answering V3 fee tier, else unset and
/// "Unknown"), the three independent stablecoin quotes, and the USD
/// fallback resolution.
pub open spec fn token_price_info_ok(
    chain: ChainView,
    v2_factory: Address,
    v3_factory: Address,
    token_address: Address,
    info: TokenPriceInfo,
) -> bool {
    match chain.spec_token(token_address) {
        None => false,
        Some(obs) => {
            let t = spec_token_info(token_address, obs);
            &&& info.token_address == token_address
            &&& info.token_symbol == obs.symbol
            &&& info.token_name == obs.name
            &&& info.decimals == obs.decimals
            &&& info.liquidity == 0
            &&& (match spec_eth_v2_quote(chain, v2_factory, t) {
                Some(p) => info.eth_price == Some(p) && info.price_source@ == "Uniswap V2"@,
                None => (match chain.spec_token(spec_weth_address()) {
                    None => info.eth_price is None && info.price_source@ == "Unknown"@,
                    Some(weth_obs) => {
                        let weth = spec_token_info(spec_weth_address(), weth_obs);
                        match spec_eth_v3_search(chain, v3_factory, t, weth, spec_fee_tiers()) {
                            EthV3Outcome::Found(p) => info.eth_price == Some(p)
                                && info.price_source@ == "Uniswap V3"@,
                            EthV3Outcome::Failed => info.eth_price is None && info.price_source@
                                == "Unknown"@,
                            EthV3Outcome::NotFound => info.eth_price is None && info.price_source@
                                == "Unknown"@,
                        }
                    },
                }),
            })
            &&& info.usdc_price == spec_stablecoin_quote(chain, v2_factory, t, spec_usdc_address())
            &&& info.usdt_price == spec_stablecoin_quote(chain, v2_factory, t, spec_usdt_address())
            &&& info.dai_price == spec_stablecoin_quote(chain, v2_factory, t, spec_dai_address())
            &&& spec_usd_ok(chain, v2_factory, info)
        },
    }
}

/// The addresses out of `s`, in order, whose token metadata resolves —
/// exactly the tokens a batch pricing run reports.
pub open spec fn spec_priced_addrs(chain: ChainView, s: Seq<Address>) -> Seq<Address>
    decreases s.len(),
{
    if s.len() == 0 {
        Seq::<Address>::empty()
    } else {
        let pre = spec_priced_addrs(chain, s.drop_last());
        if chain.spec_token(s.last()) is Some {
            pre.push(s.last())
        } else {
            pre
        }
    }
}

/// The fixed ordered basket of base tokens the liquidity search probes.
pub open spec fn spec_basket() -> Seq<Address> {
    seq![spec_weth_address(), spec_usdc_address(), spec_usdt_address(), spec_dai_address()]
}

/// What one basket element contributes to the liquidity search: the
/// pair's pool record when the pair exists, its state resolves, and both
/// reserves are non-zero; nothing otherwise.
pub open spec fn spec_basket_head(chain: ChainView, pair: Address) -> Seq<PoolInfo> {
    if pair.spec_is_zero() {
        Seq::<PoolInfo>::empty()
    } else {
        match spec_pool_info_v2(chain, pair) {
            Some(pi) => if pi.reserve0 != 0 && pi.reserve1 != 0 {
                seq![pi]
            } else {
                Seq::<PoolInfo>::empty()
            },
            None => Seq::<PoolInfo>::empty(),
        }
    }
}

/// The liquidity search's result over a basket, in basket order; `None`
/// when any factory read fails (which aborts the search).
pub open spec fn spec_liquid_pools(
    chain: ChainView,
    v2_factory: Address,
    token: Address,
    basket: Seq<Address>,
) -> Option<Seq<PoolInfo>>
    decreases basket.len(),
{
    if basket.len() == 0 {
        Some(Seq::<PoolInfo>::empty())
    } else {
        match chain.spec_pair(v2_factory, token, basket[0]) {
            None => None,
            Some(pair) => match spec_liquid_pools(chain, v2_factory, token, basket.drop_first()) {
                None => None,
                Some(tail) => Some(spec_basket_head(chain, pair) + tail),
            },
        }
    }
}

/// The outcome of probing one V3 fee tier.
pub enum V3Probe {
    /// The factory read failed: the whole search fails.
    Abort,
    /// No pool at this tier (zero address) or its state is unavailable:
    /// the search moves to the next tier.
    Skip,
    /// A pool answered with a price.
    Found(PriceRatio),
}

/// The outcome of the ordered V3 fee-tier search.
pub enum EthV3Outcome {
    /// A factory read failed.
    Failed,
    /// Every tier was probed without an answer.
    NotFound,
    /// The first answering tier's price.
    Found(PriceRatio),
}

/// What probing one fee tier yields: the factory's pool answer, then the
/// pool's slot0 price.
pub open spec fn spec_v3_probe(
    chain: ChainView,
    v3_factory: Address,
    token: TokenInfo,
    weth: TokenInfo,
    fee: u32,
) -> V3Probe {
    match chain.spec_pool_v3(v3_factory, token.address, weth.address, fee) {
        None => V3Probe::Abort,
        Some(pool) => if pool.spec_is_zero() {
            V3Probe::Skip
        } else {
            match spec_v3_price(chain, pool, token, weth) {
                Some(p) => V3Probe::Found(p),
                None => V3Probe::Skip,
            }
        },
    }
}

/// The fixed fee tiers probed for a V3 pool, in search order.
pub open spec fn spec_fee_tiers() -> Seq<u32> {
    seq![500u32, 3000u32, 10000u32]
}

/// The ordered fee-tier search: the first answering tier wins, a factory
/// failure fails the search, and an exhausted list means no pool.
pub open spec fn spec_eth_v3_search(
    chain: ChainView,
    v3_factory: Address,
    token: TokenInfo,
    weth: TokenInfo,
    fees: Seq<u32>,
) -> EthV3Outcome
    decreases fees.len(),
{
    if fees.len() == 0 {
        EthV3Outcome::NotFound
    } else {
        match spec_v3_probe(chain, v3_factory, token, weth, fees[0]) {
            V3Probe::Abort => EthV3Outcome::Failed,
            V3Probe::Skip => spec_eth_v3_search(chain, v3_factory, token, weth, fees.drop_first()),
            V3Probe::Found(p) => EthV3Outcome::Found(p),
        }
    }
}

/// Verified string equality by characters.
fn str_eq(a: &str, b: &str) -> (r: bool)
    ensures
        r == (a@ == b@),
{
    let la = a.unicode_len();
    let lb = b.unicode_len();
    if la != lb {
        proof {
            if a@ == b@ {
                assert(a@.len() == b@.len());
            }
        }
        return false;
    }
    let mut i: usize = 0;
    while i < la
        invariant
            la == a@.len(),
            la == b@.len(),
            i <= la,
            forall|j: int| 0 <= j < i ==> a@[j] == b@[j],
        decreases la - i,
    {
        if a.get_char(i) != b.get_char(i) {
            proof {
                if a@ == b@ {
                    assert(a@[i as int] == b@[i as int]);
                }
            }
            return false;
        }
        i = i + 1;
    }
    proof {
        assert(a@ =~= b@);
    }
    true
}

/// The stablecoin a symbol names; any unrecognized symbol falls back to
/// USDT.
pub open spec fn spec_stablecoin_address(s: Seq<char>) -> Address {
    if s == "USDC"@ {
        spec_usdc_address()
    } else if s == "USDT"@ {
        spec_usdt_address()
    } else if s == "DAI"@ {
        spec_dai_address()
    } else {
        spec_usdt_address()
    }
}

/// The token's ETH price via the V2 pair against WETH, when every
/// underlying read succeeds and the price is defined.
pub open spec fn spec_eth_v2_quote(chain: ChainView, v2_factory: Address, token: TokenInfo) -> Option<
    PriceRatio,
> {
    match chain.spec_token(spec_weth_address()) {
        None => None,
        Some(weth_obs) => {
            let weth = spec_token_info(spec_weth_address(), weth_obs);
            match chain.spec_pair(v2_factory, token.address, spec_weth_address()) {
                None => None,
                Some(pair) => if pair.spec_is_zero() {
                    None
                } else {
                    match spec_pool_info_v2(chain, pair) {
                        None => None,
                        Some(pi) => spec_calc_price_opt(pi, token, weth),
                    }
                },
            }
        },
    }
}

/// The token's quote against one stablecoin: exactly one when the token
/// is that stablecoin (whatever the observations hold), else the V2 pair
/// price when every underlying read succeeds and the price is defined.
pub open spec fn spec_stablecoin_quote(
    chain: ChainView,
    v2_factory: Address,
    token: TokenInfo,
    stablecoin_address: Address,
) -> Option<PriceRatio> {
    if token.address == stablecoin_address {
        Some(PriceRatio::Scaled { num: 1u128, den: 1u128, exp10: 0i32 })
    } else {
        match chain.spec_token(stablecoin_address) {
            None => None,
            Some(sc_obs) => {
                let sc = spec_token_info(stablecoin_address, sc_obs);
                match chain.spec_pair(v2_factory, token.address, stablecoin_address) {
                    None => None,
                    Some(pair) => if pair.spec_is_zero() {
                        None
                    } else {
                        match spec_pool_info_v2(chain, pair) {
                            None => None,
                            Some(pi) => spec_calc_price_opt(pi, token, sc),
                        }
                    },
                }
            },
        }
    }
}

/// The WETH/USDC spot price via the V2 pair, when every underlying read
/// succeeds and the price is defined.
pub open spec fn spec_eth_usd_quote(chain: ChainView, v2_factory: Address) -> Option<PriceRatio> {
    match (chain.spec_token(spec_weth_address()), chain.spec_token(spec_usdc_address())) {
        (Some(weth_obs), Some(usdc_obs)) => {
            let weth = spec_token_info(spec_weth_address(), weth_obs);
            let usdc = spec_token_info(spec_usdc_address(), usdc_obs);
            match chain.spec_pair(v2_factory, spec_weth_address(), spec_usdc_address()) {
                None => None,
                Some(pair) => if pair.spec_is_zero() {
                    None
                } else {
                    match spec_pool_info_v2(chain, pair) {
                        None => None,
                        Some(pi) => spec_calc_price_opt(pi, weth, usdc),
                    }
                },
            }
        },
        _ => None,
    }
}

} // verus!
