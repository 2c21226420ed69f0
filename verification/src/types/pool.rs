//! Liquidity pools as the codec sees them.

use vstd::prelude::*;
use crate::types::address::Address;
use crate::types::uint::U256;

verus! {

/// The protocol a pool belongs to.
#[derive(Clone, Copy, Debug)]
pub enum PoolVariant {
    UniswapV2,
    UniswapV3,
}

/// An on-chain pool of two tokens.
#[derive(Clone, Copy, Debug)]
pub struct Pool {
    pub address: Address,
    pub token_0: Address,
    pub token_1: Address,
    pub swap_fee: U256,
    pub pool_variant: PoolVariant,
}

impl Pool {
    /// The pool of the two tokens, the one that sorts first as `token_0`.
    pub fn new(
        address: Address,
        token_a: Address,
        token_b: Address,
        swap_fee: U256,
        pool_variant: PoolVariant,
    ) -> (r: Pool)
        ensures
            r.address == address,
            r.swap_fee == swap_fee,
            r.pool_variant == pool_variant,
            r.token_0 == (if precedes_or_same(token_a@, token_b@) { token_a } else { token_b }),
            r.token_1 == (if precedes_or_same(token_a@, token_b@) { token_b } else { token_a }),
    {
        if token_b.lt(&token_a) {
            Pool { address, token_0: token_b, token_1: token_a, swap_fee, pool_variant }
        } else {
            Pool { address, token_0: token_a, token_1: token_b, swap_fee, pool_variant }
        }
    }
}

/// Whether `a` does not come after `b`.
pub open spec fn precedes_or_same(a: Seq<u8>, b: Seq<u8>) -> bool {
    !crate::types::address::precedes(b, a)
}

} // verus!
