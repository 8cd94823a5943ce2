//! End-to-end pricing scenarios over crafted chain observations.

use uniswap_price::chain::{
    ChainView, PairEntry, PoolV3Entry, TokenEntry, TokenObs, V2PoolEntry, V2PoolObs, V3PoolEntry,
    V3PoolObs,
};
use uniswap_price::global::{usdc_address, usdt_address, v2_factory_address, weth_address};
use uniswap_price::price::Price;
use uniswap_price::ratio::PriceRatio;
use uniswap_price::types::{Address, TokenInfo, UniswapError};
use uniswap_price::v2::UniswapV2;
use uniswap_price::v3::UniswapV3;

fn addr(n: u128) -> Address {
    Address { hi: 0, lo: n }
}

fn token_entry(token: Address, symbol: &str, decimals: u8) -> TokenEntry {
    TokenEntry {
        token,
        result: Ok(TokenObs {
            symbol: symbol.to_string(),
            name: format!("{} token", symbol),
            decimals,
        }),
    }
}

fn token_info(address: Address, symbol: &str, decimals: u8) -> TokenInfo {
    TokenInfo {
        address,
        symbol: symbol.to_string(),
        decimals,
        name: format!("{} token", symbol),
    }
}

fn pair_entry(factory: Address, a: Address, b: Address, pair: Address) -> PairEntry {
    PairEntry {
        factory,
        token_a: a,
        token_b: b,
        result: Ok(pair),
    }
}

fn v2_pool_entry(
    pool: Address,
    token0: Address,
    token1: Address,
    reserve0: u128,
    reserve1: u128,
) -> V2PoolEntry {
    V2PoolEntry {
        pool,
        result: Ok(V2PoolObs {
            token0,
            token1,
            reserve0,
            reserve1,
            total_supply: 1000,
        }),
    }
}

fn empty_chain() -> ChainView {
    ChainView {
        pairs: vec![],
        v3_pools: vec![],
        v2_pool_data: vec![],
        v3_pool_data: vec![],
        tokens: vec![],
    }
}

fn ratio_f64(p: &PriceRatio) -> f64 {
    match p {
        PriceRatio::Scaled { num, den, exp10 } => {
            (*num as f64) / (*den as f64) * 10f64.powi(*exp10)
        }
        PriceRatio::SqrtScaled {
            sqrt_price_x96,
            inverted,
            exp10,
        } => {
            let r = ((*sqrt_price_x96 as f64) / 2f64.powi(96)).powi(2);
            let r = if *inverted { 1.0 / r } else { r };
            r * 10f64.powi(*exp10)
        }
        PriceRatio::Product { left, right } => ratio_f64(left) * ratio_f64(right),
    }
}

#[test]
fn price_antisymmetry_under_token_swap() {
    let price = Price::new().unwrap();
    let a = token_info(addr(1), "AAA", 18);
    let b = token_info(addr(2), "BBB", 6);
    let pool = uniswap_price::types::PoolInfo {
        address: addr(100),
        token0: token_info(addr(1), "AAA", 18),
        token1: token_info(addr(2), "BBB", 6),
        reserve0: 7_000_000_000_000_000_000,
        reserve1: 3_000_000,
        liquidity: 1000,
    };
    let p = price.calc_price(&pool, &a, &b).unwrap();
    let q = price.calc_price(&pool, &b, &a).unwrap();
    let product = ratio_f64(&p) * ratio_f64(&q);
    assert!((product - 1.0).abs() < 1e-9, "product = {}", product);
}

#[test]
fn zero_base_reserve_is_an_error_not_infinity() {
    let price = Price::new().unwrap();
    let a = token_info(addr(1), "AAA", 18);
    let b = token_info(addr(2), "BBB", 18);
    let pool = uniswap_price::types::PoolInfo {
        address: addr(100),
        token0: token_info(addr(1), "AAA", 18),
        token1: token_info(addr(2), "BBB", 18),
        reserve0: 0,
        reserve1: 5,
        liquidity: 1000,
    };
    let r = price.calc_price(&pool, &a, &b);
    assert!(matches!(r, Err(UniswapError::ContractError(_))));
}

#[test]
fn mismatched_pool_is_pool_not_found() {
    let price = Price::new().unwrap();
    let a = token_info(addr(9), "XXX", 18);
    let b = token_info(addr(2), "BBB", 18);
    let pool = uniswap_price::types::PoolInfo {
        address: addr(100),
        token0: token_info(addr(1), "AAA", 18),
        token1: token_info(addr(2), "BBB", 18),
        reserve0: 4,
        reserve1: 5,
        liquidity: 1000,
    };
    let r = price.calc_price(&pool, &a, &b);
    assert!(matches!(r, Err(UniswapError::PoolNotFound)));
}

#[test]
fn v3_one_to_one_sqrt_price_is_exactly_one() {
    let sqrt_one: u128 = 1 << 96;
    let pool = addr(300);
    let mut chain = empty_chain();
    chain.v3_pool_data.push(V3PoolEntry {
        pool,
        result: Ok(V3PoolObs {
            token0: addr(1),
            token1: addr(2),
            sqrt_price_x96: sqrt_one,
            liquidity: 10,
        }),
    });
    let v3 = UniswapV3 {};
    let a = token_info(addr(1), "AAA", 18);
    let b = token_info(addr(2), "BBB", 18);
    let direct = v3.get_price_by_token0_token1(&chain, pool, &a, &b).unwrap();
    assert_eq!(ratio_f64(&direct), 1.0);
    let inverted = v3.get_price_by_token0_token1(&chain, pool, &b, &a).unwrap();
    assert_eq!(ratio_f64(&inverted), 1.0);
}

#[test]
fn usd_fallback_prefers_usdc_over_usdt() {
    let v2f = v2_factory_address();
    let t = addr(1);
    let usdc = usdc_address();
    let usdt = usdt_address();
    let pair_usdc = addr(100);
    let pair_usdt = addr(101);
    let chain = ChainView {
        pairs: vec![
            pair_entry(v2f, t, usdc, pair_usdc),
            pair_entry(v2f, t, usdt, pair_usdt),
        ],
        v3_pools: vec![],
        v2_pool_data: vec![
            v2_pool_entry(pair_usdc, t, usdc, 1, 2),
            v2_pool_entry(pair_usdt, t, usdt, 1, 3),
        ],
        v3_pool_data: vec![],
        tokens: vec![
            token_entry(t, "TKN", 0),
            token_entry(usdc, "USDC", 0),
            token_entry(usdt, "USDT", 0),
        ],
    };
    let price = Price::new().unwrap();
    let info = price.get_token_prices_by_token_address(&chain, t).unwrap();
    assert_eq!(ratio_f64(info.usdc_price.as_ref().unwrap()), 2.0);
    assert_eq!(ratio_f64(info.usdt_price.as_ref().unwrap()), 3.0);
    assert!(info.dai_price.is_none());
    assert_eq!(info.usd_price, info.usdc_price);
    assert_eq!(ratio_f64(info.usd_price.as_ref().unwrap()), 2.0);
}

#[test]
fn stablecoin_self_identity_needs_no_pool() {
    let usdc = usdc_address();
    // only the subject token's metadata is present: no pair, no pool
    let chain = ChainView {
        pairs: vec![],
        v3_pools: vec![],
        v2_pool_data: vec![],
        v3_pool_data: vec![],
        tokens: vec![token_entry(usdc, "USDC", 6)],
    };
    let price = Price::new().unwrap();
    let info = price.get_token_prices_by_token_address(&chain, usdc).unwrap();
    let one = PriceRatio::Scaled {
        num: 1,
        den: 1,
        exp10: 0,
    };
    assert_eq!(info.usdc_price, Some(one));
    assert_eq!(ratio_f64(info.usdc_price.as_ref().unwrap()), 1.0);
    // USDT and DAI quotes need their metadata, which is absent
    assert!(info.usdt_price.is_none());
    assert!(info.dai_price.is_none());
    assert!(info.eth_price.is_none());
    assert_eq!(info.price_source, "Unknown");
    assert_eq!(info.usd_price, info.usdc_price);
}

#[test]
fn batch_pricing_skips_failing_token_and_keeps_order() {
    let a = addr(1);
    let b = addr(2); // no metadata: pricing it fails
    let c = addr(3);
    let chain = ChainView {
        pairs: vec![],
        v3_pools: vec![],
        v2_pool_data: vec![],
        v3_pool_data: vec![],
        tokens: vec![token_entry(a, "AAA", 18), token_entry(c, "CCC", 18)],
    };
    let price = Price::new().unwrap();
    let out = price
        .get_multiple_prices_by_token_address_vec(&chain, vec![a, b, c])
        .unwrap();
    assert_eq!(out.len(), 2);
    assert_eq!(out[0].token_address, a);
    assert_eq!(out[0].token_symbol, "AAA");
    assert_eq!(out[1].token_address, c);
    assert_eq!(out[1].token_symbol, "CCC");
}

#[test]
fn liquidity_search_keeps_basket_order_and_filters_empty_pools() {
    let v2f = v2_factory_address();
    let t = addr(1);
    let weth = weth_address();
    let usdc = usdc_address();
    let usdt = usdt_address();
    let dai = uniswap_price::global::dai_address();
    let pair_weth = addr(200);
    let pair_usdc = addr(201);
    let pair_dai = addr(202);
    let chain = ChainView {
        pairs: vec![
            pair_entry(v2f, t, weth, pair_weth),
            pair_entry(v2f, t, usdc, pair_usdc),
            pair_entry(v2f, t, usdt, addr(0)), // zero: no pair
            pair_entry(v2f, t, dai, pair_dai),
        ],
        v3_pools: vec![],
        v2_pool_data: vec![
            v2_pool_entry(pair_weth, t, weth, 5, 6),
            v2_pool_entry(pair_usdc, t, usdc, 0, 6), // empty reserve: filtered out
            v2_pool_entry(pair_dai, t, dai, 7, 8),
        ],
        v3_pool_data: vec![],
        tokens: vec![
            token_entry(t, "TKN", 18),
            token_entry(weth, "WETH", 18),
            token_entry(usdc, "USDC", 6),
            token_entry(dai, "DAI", 18),
        ],
    };
    let price = Price::new().unwrap();
    let pools = price.search_liquid_pools(&chain, t).unwrap();
    assert_eq!(pools.len(), 2);
    assert_eq!(pools[0].address, pair_weth);
    assert_eq!(pools[1].address, pair_dai);
}

#[test]
fn liquidity_search_aborts_on_factory_failure() {
    let v2f = v2_factory_address();
    let t = addr(1);
    let weth = weth_address();
    let mut chain = empty_chain();
    chain.tokens.push(token_entry(t, "TKN", 18));
    chain.pairs.push(PairEntry {
        factory: v2f,
        token_a: t,
        token_b: weth,
        result: Err("factory reverted".to_string()),
    });
    let price = Price::new().unwrap();
    let r = price.search_liquid_pools(&chain, t);
    assert!(matches!(r, Err(UniswapError::ContractError(_))));
}

#[test]
fn eth_price_via_v2_pair_sets_source() {
    let v2f = v2_factory_address();
    let t = addr(1);
    let weth = weth_address();
    let pair = addr(400);
    let chain = ChainView {
        pairs: vec![pair_entry(v2f, t, weth, pair)],
        v3_pools: vec![],
        v2_pool_data: vec![v2_pool_entry(pair, t, weth, 4, 1)],
        v3_pool_data: vec![],
        tokens: vec![token_entry(t, "TKN", 0), token_entry(weth, "WETH", 0)],
    };
    let price = Price::new().unwrap();
    let info = price.get_token_prices_by_token_address(&chain, t).unwrap();
    assert_eq!(info.price_source, "Uniswap V2");
    assert_eq!(ratio_f64(info.eth_price.as_ref().unwrap()), 0.25);
}

#[test]
fn eth_price_falls_back_to_v3_tiers_in_order() {
    let v2f = v2_factory_address();
    let v3f = uniswap_price::global::v3_factory_address();
    let t = addr(1);
    let weth = weth_address();
    let v3_pool = addr(500);
    let chain = ChainView {
        // V2 pair lookup answers zero: no pair
        pairs: vec![pair_entry(v2f, t, weth, addr(0))],
        v3_pools: vec![
            PoolV3Entry {
                factory: v3f,
                token_a: t,
                token_b: weth,
                fee: 500,
                result: Ok(addr(0)), // tier 500: no pool
            },
            PoolV3Entry {
                factory: v3f,
                token_a: t,
                token_b: weth,
                fee: 3000,
                result: Ok(v3_pool),
            },
        ],
        v2_pool_data: vec![],
        v3_pool_data: vec![V3PoolEntry {
            pool: v3_pool,
            result: Ok(V3PoolObs {
                token0: t,
                token1: weth,
                sqrt_price_x96: 1 << 96,
                liquidity: 9,
            }),
        }],
        tokens: vec![token_entry(t, "TKN", 18), token_entry(weth, "WETH", 18)],
    };
    let price = Price::new().unwrap();
    let info = price.get_token_prices_by_token_address(&chain, t).unwrap();
    assert_eq!(info.price_source, "Uniswap V3");
    assert_eq!(ratio_f64(info.eth_price.as_ref().unwrap()), 1.0);
}

#[test]
fn unpriceable_token_propagates_error() {
    let chain = empty_chain();
    let price = Price::new().unwrap();
    let r = price.get_token_prices_by_token_address(&chain, addr(1));
    assert!(matches!(r, Err(UniswapError::ContractError(_))));
}

#[test]
fn usd_last_resort_multiplies_eth_and_spot_price() {
    let v2f = v2_factory_address();
    let t = addr(1);
    let weth = weth_address();
    let usdc = usdc_address();
    let pair_eth = addr(600);
    let pair_spot = addr(601);
    let chain = ChainView {
        pairs: vec![
            pair_entry(v2f, t, weth, pair_eth),
            pair_entry(v2f, weth, usdc, pair_spot),
        ],
        v3_pools: vec![],
        v2_pool_data: vec![
            v2_pool_entry(pair_eth, t, weth, 1, 2), // 1 TKN = 2 ETH
            v2_pool_entry(pair_spot, weth, usdc, 1, 1500), // 1 ETH = 1500 USDC
        ],
        v3_pool_data: vec![],
        tokens: vec![
            token_entry(t, "TKN", 0),
            token_entry(weth, "WETH", 0),
            token_entry(usdc, "USDC", 0),
        ],
    };
    let price = Price::new().unwrap();
    let info = price.get_token_prices_by_token_address(&chain, t).unwrap();
    assert!(info.usdc_price.is_none());
    assert!(info.usdt_price.is_none());
    assert!(info.dai_price.is_none());
    assert_eq!(ratio_f64(info.eth_price.as_ref().unwrap()), 2.0);
    assert_eq!(ratio_f64(info.usd_price.as_ref().unwrap()), 3000.0);
}

#[test]
fn v2_reader_assembles_pool_info() {
    let pool = addr(700);
    let chain = ChainView {
        pairs: vec![],
        v3_pools: vec![],
        v2_pool_data: vec![v2_pool_entry(pool, addr(1), addr(2), 10, 20)],
        v3_pool_data: vec![],
        tokens: vec![token_entry(addr(1), "AAA", 18), token_entry(addr(2), "BBB", 6)],
    };
    let v2 = UniswapV2 {};
    let info = v2.get_pool_info(&chain, pool).unwrap();
    assert_eq!(info.address, pool);
    assert_eq!(info.token0.symbol, "AAA");
    assert_eq!(info.token1.decimals, 6);
    assert_eq!(info.reserve0, 10);
    assert_eq!(info.reserve1, 20);
    assert_eq!(info.liquidity, 1000);
    let data = v2.get_price(&chain, pool, addr(1)).unwrap();
    assert_eq!(ratio_f64(&data.price), 2.0);
}

#[test]
fn v3_reader_reports_zero_reserves() {
    let pool = addr(800);
    let chain = ChainView {
        pairs: vec![],
        v3_pools: vec![],
        v2_pool_data: vec![],
        v3_pool_data: vec![V3PoolEntry {
            pool,
            result: Ok(V3PoolObs {
                token0: addr(1),
                token1: addr(2),
                sqrt_price_x96: 1 << 96,
                liquidity: 77,
            }),
        }],
        tokens: vec![token_entry(addr(1), "AAA", 18), token_entry(addr(2), "BBB", 18)],
    };
    let v3 = UniswapV3 {};
    let info = v3.get_pool_info(&chain, pool).unwrap();
    assert_eq!(info.reserve0, 0);
    assert_eq!(info.reserve1, 0);
    assert_eq!(info.liquidity, 77);
    let data = v3.get_price(&chain, pool).unwrap();
    assert_eq!(ratio_f64(&data.price), 1.0);
}
