//! A snapshot of the on-chain answers a pricing run works from.
//!
//! Every RPC round-trip the pricing logic depends on — a factory's
//! `getPair`/`getPool` answer, a pair's or pool's state, a token's
//! metadata — is recorded as one observation: the call's key and either
//! its typed answer or the failure message the transport reported.  The
//! unverified caller performs the calls and hands the observations in;
//! the pricing logic reads them through the accessors here, whose
//! contracts pin exactly which observation answers which query.  A query
//! with no matching observation counts as a failed contract read.

use vstd::prelude::*;
use crate::types::{Address, UniswapError};

verus! {

/// One observed answer of a V2 factory's `getPair(token_a, token_b)`
/// call: the pair address (zero when no pair exists) or a failure.
#[derive(Debug)]
pub struct PairEntry {
    pub factory: Address,
    pub token_a: Address,
    pub token_b: Address,
    pub result: Result<Address, String>,
}

/// One observed answer of a V3 factory's `getPool(token_a, token_b, fee)`
/// call.
#[derive(Debug)]
pub struct PoolV3Entry {
    pub factory: Address,
    pub token_a: Address,
    pub token_b: Address,
    pub fee: u32,
    pub result: Result<Address, String>,
}

/// The state a V2 pair contract reports: constituent tokens, raw
/// reserves, and the total LP-token supply (the liquidity proxy).
#[derive(Debug, Clone, Copy, PartialEq, Eq, Structural)]
pub struct V2PoolObs {
    pub token0: Address,
    pub token1: Address,
    pub reserve0: u128,
    pub reserve1: u128,
    pub total_supply: u128,
}

/// One observed read of a V2 pair's state, or the failure any of its
/// underlying calls reported.
#[derive(Debug)]
pub struct V2PoolEntry {
    pub pool: Address,
    pub result: Result<V2PoolObs, String>,
}

/// The state a V3 pool contract reports: constituent tokens, the slot0
/// square-root price, and the active liquidity figure.
#[derive(Debug, Clone, Copy, PartialEq, Eq, Structural)]
pub struct V3PoolObs {
    pub token0: Address,
    pub token1: Address,
    pub sqrt_price_x96: u128,
    pub liquidity: u128,
}

/// One observed read of a V3 pool's state.
#[derive(Debug)]
pub struct V3PoolEntry {
    pub pool: Address,
    pub result: Result<V3PoolObs, String>,
}

/// The metadata a token contract reports.
#[derive(Debug, Clone)]
pub struct TokenObs {
    pub symbol: String,
    pub name: String,
    pub decimals: u8,
}

/// One observed read of a token's metadata.
#[derive(Debug)]
pub struct TokenEntry {
    pub token: Address,
    pub result: Result<TokenObs, String>,
}

/// The full set of observations one pricing run works from.
#[derive(Debug)]
pub struct ChainView {
    pub pairs: Vec<PairEntry>,
    pub v3_pools: Vec<PoolV3Entry>,
    pub v2_pool_data: Vec<V2PoolEntry>,
    pub v3_pool_data: Vec<V3PoolEntry>,
    pub tokens: Vec<TokenEntry>,
}

/// Whether a `getPair` observation answers the given query.
pub open spec fn pair_entry_matches(e: PairEntry, factory: Address, a: Address, b: Address) -> bool {
    e.factory == factory && e.token_a == a && e.token_b == b
}

/// Whether a `getPool` observation answers the given query.
pub open spec fn pool_v3_entry_matches(
    e: PoolV3Entry,
    factory: Address,
    a: Address,
    b: Address,
    fee: u32,
) -> bool {
    e.factory == factory && e.token_a == a && e.token_b == b && e.fee == fee
}

/// The first `getPair` observation answering the query, if any.
pub open spec fn spec_find_pair(
    s: Seq<PairEntry>,
    factory: Address,
    a: Address,
    b: Address,
) -> Option<PairEntry>
    decreases s.len(),
{
    if s.len() == 0 {
        None
    } else if pair_entry_matches(s[0], factory, a, b) {
        Some(s[0])
    } else {
        spec_find_pair(s.drop_first(), factory, a, b)
    }
}

/// The first `getPool` observation answering the query, if any.
pub open spec fn spec_find_pool_v3(
    s: Seq<PoolV3Entry>,
    factory: Address,
    a: Address,
    b: Address,
    fee: u32,
) -> Option<PoolV3Entry>
    decreases s.len(),
{
    if s.len() == 0 {
        None
    } else if pool_v3_entry_matches(s[0], factory, a, b, fee) {
        Some(s[0])
    } else {
        spec_find_pool_v3(s.drop_first(), factory, a, b, fee)
    }
}

/// The first V2 pair-state observation for the pool, if any.
pub open spec fn spec_find_v2_pool(s: Seq<V2PoolEntry>, pool: Address) -> Option<V2PoolEntry>
    decreases s.len(),
{
    if s.len() == 0 {
        None
    } else if s[0].pool == pool {
        Some(s[0])
    } else {
        spec_find_v2_pool(s.drop_first(), pool)
    }
}

/// The first V3 pool-state observation for the pool, if any.
pub open spec fn spec_find_v3_pool(s: Seq<V3PoolEntry>, pool: Address) -> Option<V3PoolEntry>
    decreases s.len(),
{
    if s.len() == 0 {
        None
    } else if s[0].pool == pool {
        Some(s[0])
    } else {
        spec_find_v3_pool(s.drop_first(), pool)
    }
}

/// The first token-metadata observation for the token, if any.
pub open spec fn spec_find_token(s: Seq<TokenEntry>, token: Address) -> Option<TokenEntry>
    decreases s.len(),
{
    if s.len() == 0 {
        None
    } else if s[0].token == token {
        Some(s[0])
    } else {
        spec_find_token(s.drop_first(), token)
    }
}

impl ChainView {
    /// The successfully observed `getPair` answer, if the call was
    /// observed and did not fail.
    pub open spec fn spec_pair(self, factory: Address, a: Address, b: Address) -> Option<Address> {
        match spec_find_pair(self.pairs@, factory, a, b) {
            Some(e) => match e.result {
                Ok(p) => Some(p),
                Err(_) => None,
            },
            None => None,
        }
    }

    /// The successfully observed `getPool` answer, if any.
    pub open spec fn spec_pool_v3(
        self,
        factory: Address,
        a: Address,
        b: Address,
        fee: u32,
    ) -> Option<Address> {
        match spec_find_pool_v3(self.v3_pools@, factory, a, b, fee) {
            Some(e) => match e.result {
                Ok(p) => Some(p),
                Err(_) => None,
            },
            None => None,
        }
    }

    /// The successfully observed V2 pair state, if any.
    pub open spec fn spec_v2_pool(self, pool: Address) -> Option<V2PoolObs> {
        match spec_find_v2_pool(self.v2_pool_data@, pool) {
            Some(e) => match e.result {
                Ok(o) => Some(o),
                Err(_) => None,
            },
            None => None,
        }
    }

    /// The successfully observed V3 pool state, if any.
    pub open spec fn spec_v3_pool(self, pool: Address) -> Option<V3PoolObs> {
        match spec_find_v3_pool(self.v3_pool_data@, pool) {
            Some(e) => match e.result {
                Ok(o) => Some(o),
                Err(_) => None,
            },
            None => None,
        }
    }

    /// The successfully observed token metadata, if any.
    pub open spec fn spec_token(self, token: Address) -> Option<TokenObs> {
        match spec_find_token(self.tokens@, token) {
            Some(e) => match e.result {
                Ok(o) => Some(o),
                Err(_) => None,
            },
            None => None,
        }
    }

    /// Answers a `getPair` query from the observations: the recorded pair
    /// address on success, a contract error when the call failed or was
    /// never observed.
    pub fn pair_answer(&self, factory: Address, token_a: Address, token_b: Address) -> (r: Result<
        Address,
        UniswapError,
    >)
        ensures
            r is Ok <==> self.spec_pair(factory, token_a, token_b) is Some,
            r is Ok ==> r->Ok_0 == self.spec_pair(factory, token_a, token_b)->Some_0,
            r is Err ==> r->Err_0 is ContractError,
    {
        let n = self.pairs.len();
        let mut i: usize = 0;
        proof {
            assert(self.pairs@.skip(0) =~= self.pairs@);
        }
        while i < n
            invariant
                i <= n,
                n == self.pairs@.len(),
                spec_find_pair(self.pairs@, factory, token_a, token_b) == spec_find_pair(
                    self.pairs@.skip(i as int),
                    factory,
                    token_a,
                    token_b,
                ),
            decreases n - i,
        {
            let e = &self.pairs[i];
            proof {
                assert(self.pairs@.skip(i as int)[0] == self.pairs@[i as int]);
            }
            if e.factory == factory && e.token_a == token_a && e.token_b == token_b {
                match &e.result {
                    Ok(p) => {
                        return Ok(*p);
                    },
                    Err(m) => {
                        return Err(UniswapError::ContractError(m.clone()));
                    },
                }
            }
            proof {
                assert(self.pairs@.skip(i as int).drop_first() =~= self.pairs@.skip(i as int + 1));
            }
            i = i + 1;
        }
        proof {
            assert(self.pairs@.skip(n as int) =~= Seq::<PairEntry>::empty());
        }
        Err(UniswapError::ContractError("factory query unanswered".to_owned()))
    }

    /// Answers a `getPool` query from the observations.
    pub fn pool_v3_answer(
        &self,
        factory: Address,
        token_a: Address,
        token_b: Address,
        fee: u32,
    ) -> (r: Result<Address, UniswapError>)
        ensures
            r is Ok <==> self.spec_pool_v3(factory, token_a, token_b, fee) is Some,
            r is Ok ==> r->Ok_0 == self.spec_pool_v3(factory, token_a, token_b, fee)->Some_0,
            r is Err ==> r->Err_0 is ContractError,
    {
        let n = self.v3_pools.len();
        let mut i: usize = 0;
        proof {
            assert(self.v3_pools@.skip(0) =~= self.v3_pools@);
        }
        while i < n
            invariant
                i <= n,
                n == self.v3_pools@.len(),
                spec_find_pool_v3(self.v3_pools@, factory, token_a, token_b, fee)
                    == spec_find_pool_v3(
                    self.v3_pools@.skip(i as int),
                    factory,
                    token_a,
                    token_b,
                    fee,
                ),
            decreases n - i,
        {
            let e = &self.v3_pools[i];
            proof {
                assert(self.v3_pools@.skip(i as int)[0] == self.v3_pools@[i as int]);
            }
            if e.factory == factory && e.token_a == token_a && e.token_b == token_b && e.fee
                == fee {
                match &e.result {
                    Ok(p) => {
                        return Ok(*p);
                    },
                    Err(m) => {
                        return Err(UniswapError::ContractError(m.clone()));
                    },
                }
            }
            proof {
                assert(self.v3_pools@.skip(i as int).drop_first() =~= self.v3_pools@.skip(
                    i as int + 1,
                ));
            }
            i = i + 1;
        }
        proof {
            assert(self.v3_pools@.skip(n as int) =~= Seq::<PoolV3Entry>::empty());
        }
        Err(UniswapError::ContractError("factory query unanswered".to_owned()))
    }

    /// Answers a V2 pair-state query from the observations.
    pub fn v2_pool_answer(&self, pool: Address) -> (r: Result<V2PoolObs, UniswapError>)
        ensures
            r is Ok <==> self.spec_v2_pool(pool) is Some,
            r is Ok ==> r->Ok_0 == self.spec_v2_pool(pool)->Some_0,
            r is Err ==> r->Err_0 is ContractError,
    {
        let n = self.v2_pool_data.len();
        let mut i: usize = 0;
        proof {
            assert(self.v2_pool_data@.skip(0) =~= self.v2_pool_data@);
        }
        while i < n
            invariant
                i <= n,
                n == self.v2_pool_data@.len(),
                spec_find_v2_pool(self.v2_pool_data@, pool) == spec_find_v2_pool(
                    self.v2_pool_data@.skip(i as int),
                    pool,
                ),
            decreases n - i,
        {
            let e = &self.v2_pool_data[i];
            proof {
                assert(self.v2_pool_data@.skip(i as int)[0] == self.v2_pool_data@[i as int]);
            }
            if e.pool == pool {
                match &e.result {
                    Ok(o) => {
                        return Ok(*o);
                    },
                    Err(m) => {
                        return Err(UniswapError::ContractError(m.clone()));
                    },
                }
            }
            proof {
                assert(self.v2_pool_data@.skip(i as int).drop_first() =~= self.v2_pool_data@.skip(
                    i as int + 1,
                ));
            }
            i = i + 1;
        }
        proof {
            assert(self.v2_pool_data@.skip(n as int) =~= Seq::<V2PoolEntry>::empty());
        }
        Err(UniswapError::ContractError("pair state query unanswered".to_owned()))
    }

    /// Answers a V3 pool-state query from the observations.
    pub fn v3_pool_answer(&self, pool: Address) -> (r: Result<V3PoolObs, UniswapError>)
        ensures
            r is Ok <==> self.spec_v3_pool(pool) is Some,
            r is Ok ==> r->Ok_0 == self.spec_v3_pool(pool)->Some_0,
            r is Err ==> r->Err_0 is ContractError,
    {
        let n = self.v3_pool_data.len();
        let mut i: usize = 0;
        proof {
            assert(self.v3_pool_data@.skip(0) =~= self.v3_pool_data@);
        }
        while i < n
            invariant
                i <= n,
                n == self.v3_pool_data@.len(),
                spec_find_v3_pool(self.v3_pool_data@, pool) == spec_find_v3_pool(
                    self.v3_pool_data@.skip(i as int),
                    pool,
                ),
            decreases n - i,
        {
            let e = &self.v3_pool_data[i];
            proof {
                assert(self.v3_pool_data@.skip(i as int)[0] == self.v3_pool_data@[i as int]);
            }
            if e.pool == pool {
                match &e.result {
                    Ok(o) => {
                        return Ok(*o);
                    },
                    Err(m) => {
                        return Err(UniswapError::ContractError(m.clone()));
                    },
                }
            }
            proof {
                assert(self.v3_pool_data@.skip(i as int).drop_first() =~= self.v3_pool_data@.skip(
                    i as int + 1,
                ));
            }
            i = i + 1;
        }
        proof {
            assert(self.v3_pool_data@.skip(n as int) =~= Seq::<V3PoolEntry>::empty());
        }
        Err(UniswapError::ContractError("pool state query unanswered".to_owned()))
    }

    /// Answers a token-metadata query from the observations.
    pub fn token_answer(&self, token: Address) -> (r: Result<TokenObs, UniswapError>)
        ensures
            r is Ok <==> self.spec_token(token) is Some,
            r is Ok ==> r->Ok_0 == self.spec_token(token)->Some_0,
            r is Err ==> r->Err_0 is ContractError,
    {
        let n = self.tokens.len();
        let mut i: usize = 0;
        proof {
            assert(self.tokens@.skip(0) =~= self.tokens@);
        }
        while i < n
            invariant
                i <= n,
                n == self.tokens@.len(),
                spec_find_token(self.tokens@, token) == spec_find_token(
                    self.tokens@.skip(i as int),
                    token,
                ),
            decreases n - i,
        {
            let e = &self.tokens[i];
            proof {
                assert(self.tokens@.skip(i as int)[0] == self.tokens@[i as int]);
            }
            if e.token == token {
                match &e.result {
                    Ok(o) => {
                        return Ok(
                            TokenObs {
                                symbol: o.symbol.clone(),
                                name: o.name.clone(),
                                decimals: o.decimals,
                            },
                        );
                    },
                    Err(m) => {
                        return Err(UniswapError::ContractError(m.clone()));
                    },
                }
            }
            proof {
                assert(self.tokens@.skip(i as int).drop_first() =~= self.tokens@.skip(i as int + 1));
            }
            i = i + 1;
        }
        proof {
            assert(self.tokens@.skip(n as int) =~= Seq::<TokenEntry>::empty());
        }
        Err(UniswapError::ContractError("token metadata query unanswered".to_owned()))
    }
}

} // verus!
