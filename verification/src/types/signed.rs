//! 256-bit signed integers in two's complement.

use vstd::prelude::*;
use crate::types::uint::{lemma_view_order, U256};

verus! {

/// A 256-bit signed integer, held as the 256 bits of its two's complement.
#[derive(Clone, Copy, Debug)]
pub struct I256 {
    pub raw: U256,
}

/// The least number whose two's complement has the sign bit set: 2^255.
pub open spec fn sign_bit() -> nat {
    0x8000_0000_0000_0000 * (0x1_0000_0000_0000_0000 * (0x1_0000_0000_0000_0000
        * 0x1_0000_0000_0000_0000))
}

impl View for I256 {
    type V = int;

    open spec fn view(&self) -> int {
        if self.raw@ < sign_bit() {
            self.raw@ as int
        } else {
            self.raw@ - 2 * sign_bit()
        }
    }
}

impl I256 {
    /// The integer whose two's complement is `raw`.
    pub fn from_raw(raw: U256) -> (r: I256)
        ensures
            r.raw == raw,
    {
        I256 { raw }
    }

    /// The integer `x`.
    pub fn from_u128(x: u128) -> (r: I256)
        ensures
            r@ == x,
    {
        I256 { raw: U256::from_u128(x) }
    }

    /// Whether the integer is below zero.
    pub fn is_negative(&self) -> (b: bool)
        ensures
            b == (self@ < 0),
    {
        proof {
            lemma_view_order(self.raw, U256 { limbs: [0, 0, 0, 0x8000_0000_0000_0000] });
        }
        self.raw.limbs[3] >= 0x8000_0000_0000_0000
    }

    /// Whether the integer is one that a `u128` can hold.
    pub open spec fn fits_u128(&self) -> bool {
        0 <= self@ <= u128::MAX
    }

    /// Whether the integer is one that a `u128` can hold.
    pub fn is_u128(&self) -> (b: bool)
        ensures
            b == self.fits_u128(),
    {
        proof {
            lemma_view_order(U256 { limbs: [u64::MAX, u64::MAX, 0, 0] }, self.raw);
        }
        self.raw.limbs[2] == 0 && self.raw.limbs[3] == 0
    }

    /// The integer as a `u128`, where it is one.
    pub fn as_u128(&self) -> (r: u128)
        requires
            self.fits_u128(),
        ensures
            r == self@,
    {
        self.raw.as_u128()
    }
}

} // verus!
