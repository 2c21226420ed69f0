//! 256-bit unsigned integers as four 64-bit words, least significant first.

use vstd::prelude::*;
use vstd::arithmetic::div_mod::{
    lemma_div_is_ordered, lemma_div_multiples_vanish, lemma_remainder_lower,
};
use vstd::arithmetic::power::pow;
use vstd::arithmetic::power2::{pow2, lemma2_to64, lemma2_to64_rest, lemma_pow2_adds};

verus! {

/// A 256-bit unsigned integer. `limbs[0]` is the least significant word.
#[derive(Clone, Copy, Debug)]
pub struct U256 {
    pub limbs: [u64; 4],
}

/// The weight of the second word: 2^64.
pub open spec fn word() -> nat {
    0x1_0000_0000_0000_0000
}

/// One more than the largest value of a `U256`: 2^256.
pub open spec fn modulus() -> nat {
    word() * word() * word() * word()
}

impl View for U256 {
    type V = nat;

    open spec fn view(&self) -> nat {
        self.limbs[0] as nat + word() * (self.limbs[1] as nat + word() * (self.limbs[2] as nat
            + word() * (self.limbs[3] as nat)))
    }
}

/// The weights of the words are powers of two.
pub proof fn lemma_modulus_is_pow2()
    ensures
        modulus() == pow2(256),
        word() == pow2(64),
{
    lemma2_to64();
    lemma2_to64_rest();
    lemma_pow2_adds(64, 64);
    lemma_pow2_adds(128, 64);
    lemma_pow2_adds(192, 64);
    assert(word() * word() * word() * word() == pow2(256)) by (nonlinear_arith)
        requires
            word() == pow2(64),
            pow2(128) == pow2(64) * pow2(64),
            pow2(192) == pow2(128) * pow2(64),
            pow2(256) == pow2(192) * pow2(64),
    ;
}

/// Every number is below 2^256.
pub proof fn lemma_view_bound(x: U256)
    ensures
        x@ < modulus(),
{
    assert(x@ < word() * word() * word() * word()) by (nonlinear_arith)
        requires
            x@ == x.limbs[0] as nat + word() * (x.limbs[1] as nat + word() * (x.limbs[2] as nat
                + word() * (x.limbs[3] as nat))),
            x.limbs[0] < word(),
            x.limbs[1] < word(),
            x.limbs[2] < word(),
            x.limbs[3] < word(),
    ;
}

impl U256 {
    /// The number zero.
    pub fn zero() -> (r: U256)
        ensures
            r@ == 0,
    {
        U256 { limbs: [0, 0, 0, 0] }
    }

    /// The number `x`.
    pub fn from_u64(x: u64) -> (r: U256)
        ensures
            r@ == x,
    {
        U256 { limbs: [x, 0, 0, 0] }
    }

    /// The number `x`.
    pub fn from_u128(x: u128) -> (r: U256)
        ensures
            r@ == x,
    {
        let low: u64 = (x & 0xffff_ffff_ffff_ffff) as u64;
        let high: u64 = (x >> 64) as u64;
        proof {
            assert(x == (x & 0xffff_ffff_ffff_ffff) + 0x1_0000_0000_0000_0000 * (x >> 64))
                by (bit_vector);
            assert((x & 0xffff_ffff_ffff_ffff) <= 0xffff_ffff_ffff_ffff) by (bit_vector);
            assert((x >> 64) <= 0xffff_ffff_ffff_ffff) by (bit_vector);
        }
        U256 { limbs: [low, high, 0, 0] }
    }

    /// Whether the number is zero.
    pub fn is_zero(&self) -> (b: bool)
        ensures
            b == (self@ == 0),
    {
        self.limbs[0] == 0 && self.limbs[1] == 0 && self.limbs[2] == 0 && self.limbs[3] == 0
    }

    /// Whether the two numbers are the same.
    pub fn is_equal(&self, other: &U256) -> (b: bool)
        ensures
            b == (self@ == other@),
            b == (self.limbs@ == other.limbs@),
    {
        proof {
            lemma_view_injective(*self, *other);
        }
        self.limbs[0] == other.limbs[0] && self.limbs[1] == other.limbs[1] && self.limbs[2]
            == other.limbs[2] && self.limbs[3] == other.limbs[3]
    }

    /// Whether `self` is strictly below `other`.
    pub fn lt(&self, other: &U256) -> (b: bool)
        ensures
            b == (self@ < other@),
    {
        proof {
            lemma_view_order(*self, *other);
        }
        if self.limbs[3] != other.limbs[3] {
            self.limbs[3] < other.limbs[3]
        } else if self.limbs[2] != other.limbs[2] {
            self.limbs[2] < other.limbs[2]
        } else if self.limbs[1] != other.limbs[1] {
            self.limbs[1] < other.limbs[1]
        } else {
            self.limbs[0] < other.limbs[0]
        }
    }

    /// Whether `self` is at most `other`.
    pub fn le(&self, other: &U256) -> (b: bool)
        ensures
            b == (self@ <= other@),
    {
        !other.lt(self)
    }

    /// Whether `self` is strictly above `other`.
    pub fn gt(&self, other: &U256) -> (b: bool)
        ensures
            b == (self@ > other@),
    {
        other.lt(self)
    }

    /// The number as a `u64`, where it fits.
    pub fn as_u64(&self) -> (r: u64)
        requires
            self@ <= u64::MAX,
        ensures
            r == self@,
    {
        proof {
            lemma_view_order(U256 { limbs: [u64::MAX, 0, 0, 0] }, *self);
        }
        self.limbs[0]
    }

    /// Whether the number is below 2^128.
    pub open spec fn fits_u128(&self) -> bool {
        self@ <= u128::MAX
    }

    /// The number as a `u128`, where it fits.
    pub fn as_u128(&self) -> (r: u128)
        requires
            self.fits_u128(),
        ensures
            r == self@,
    {
        proof {
            lemma_view_order(*self, U256 { limbs: [u64::MAX, u64::MAX, 0, 0] });
        }
        let low: u128 = self.limbs[0] as u128;
        let high: u128 = self.limbs[1] as u128;
        assert(high << 64 == high * 0x1_0000_0000_0000_0000) by (bit_vector)
            requires
                high <= 0xffff_ffff_ffff_ffff,
        ;
        (high << 64) + low
    }
}

impl U256 {
    /// `ethers::types::U256`'s `+`: the sum. It panics where the sum does not fit
    /// in 256 bits, which `requires` leaves out.
    #[verifier::external_body]
    pub(crate) fn add(self, rhs: U256) -> (r: U256)
        requires
            self@ + rhs@ < modulus(),
        ensures
            r@ == self@ + rhs@,
    {
        U256 { limbs: (ethers::types::U256(self.limbs) + ethers::types::U256(rhs.limbs)).0 }
    }

    /// `ethers::types::U256`'s `-`: the difference. It panics where `rhs` is the
    /// larger, which `requires` leaves out.
    #[verifier::external_body]
    pub(crate) fn sub(self, rhs: U256) -> (r: U256)
        requires
            rhs@ <= self@,
        ensures
            r@ == self@ - rhs@,
    {
        U256 { limbs: (ethers::types::U256(self.limbs) - ethers::types::U256(rhs.limbs)).0 }
    }

    /// `ethers::types::U256`'s `*`: the product. It panics where the product does
    /// not fit in 256 bits, which `requires` leaves out.
    #[verifier::external_body]
    pub(crate) fn mul(self, rhs: U256) -> (r: U256)
        requires
            self@ * rhs@ < modulus(),
        ensures
            r@ == self@ * rhs@,
    {
        U256 { limbs: (ethers::types::U256(self.limbs) * ethers::types::U256(rhs.limbs)).0 }
    }

    /// `ethers::types::U256`'s `/`: the quotient, rounded down. It panics on a
    /// zero divisor, which `requires` leaves out.
    #[verifier::external_body]
    pub(crate) fn div(self, rhs: U256) -> (r: U256)
        requires
            rhs@ != 0,
        ensures
            r@ == self@ / rhs@,
    {
        U256 { limbs: (ethers::types::U256(self.limbs) / ethers::types::U256(rhs.limbs)).0 }
    }

    /// `ethers::types::U256::pow`: `self` raised to `exponent`. It panics where
    /// the power does not fit in 256 bits, which `requires` leaves out.
    #[verifier::external_body]
    pub(crate) fn pow(self, exponent: U256) -> (r: U256)
        requires
            pow(self@ as int, exponent@) < modulus(),
        ensures
            r@ == pow(self@ as int, exponent@),
    {
        U256 { limbs: ethers::types::U256(self.limbs).pow(ethers::types::U256(exponent.limbs)).0 }
    }

    /// `ethers::types::U256::to_big_endian`: the 32 bytes of the number, most
    /// significant first.
    #[verifier::external_body]
    pub(crate) fn to_big_endian(&self) -> (bytes: Vec<u8>)
        ensures
            bytes@ == be_bytes(self@, 32),
    {
        let mut bytes = vec![0u8; 32];
        ethers::types::U256(self.limbs).to_big_endian(&mut bytes);
        bytes
    }
}

impl U256 {
    /// The largest number: 2^256 - 1.
    pub fn max_value() -> (r: U256)
        ensures
            r@ == modulus() - 1,
    {
        U256 { limbs: [u64::MAX, u64::MAX, u64::MAX, u64::MAX] }
    }

    /// Whether the sum of the two numbers is a 256-bit number.
    pub fn sum_fits(&self, rhs: &U256) -> (b: bool)
        ensures
            b == (self@ + rhs@ < modulus()),
    {
        proof {
            lemma_view_bound(*self);
        }
        rhs.le(&U256::max_value().sub(*self))
    }

    /// Whether the product of the two numbers is a 256-bit number.
    pub fn product_fits(&self, rhs: &U256) -> (b: bool)
        ensures
            b == (self@ * rhs@ < modulus()),
    {
        if rhs.is_zero() {
            assert(self@ * rhs@ == 0) by (nonlinear_arith)
                requires
                    rhs@ == 0,
            ;
            return true;
        }
        let most = U256::max_value().div(*rhs);
        proof {
            let a = self@ as int;
            let b = rhs@ as int;
            let top = modulus() - 1;
            if a <= top / b {
                lemma_remainder_lower(top, b);
                assert(a * b <= (top / b) * b) by (nonlinear_arith)
                    requires
                        a <= top / b,
                        b > 0,
                ;
            }
            if a * b <= top {
                lemma_div_is_ordered(a * b, top, b);
                lemma_div_multiples_vanish(a, b);
                assert(b * a == a * b) by (nonlinear_arith);
            }
        }
        self.le(&most)
    }

    /// The sum, where it is a 256-bit number.
    pub fn checked_add(self, rhs: U256) -> (r: Option<U256>)
        ensures
            r is Some <==> self@ + rhs@ < modulus(),
            r is Some ==> r->0@ == self@ + rhs@,
    {
        if self.sum_fits(&rhs) {
            Some(self.add(rhs))
        } else {
            None
        }
    }

    /// The difference, where `rhs` is not the larger.
    pub fn checked_sub(self, rhs: U256) -> (r: Option<U256>)
        ensures
            r is Some <==> rhs@ <= self@,
            r is Some ==> r->0@ == self@ - rhs@,
    {
        if rhs.le(&self) {
            Some(self.sub(rhs))
        } else {
            None
        }
    }

    /// The product, where it is a 256-bit number.
    pub fn checked_mul(self, rhs: U256) -> (r: Option<U256>)
        ensures
            r is Some <==> self@ * rhs@ < modulus(),
            r is Some ==> r->0@ == self@ * rhs@,
    {
        if self.product_fits(&rhs) {
            Some(self.mul(rhs))
        } else {
            None
        }
    }

    /// The quotient, rounded down, where `rhs` is not zero.
    pub fn checked_div(self, rhs: U256) -> (r: Option<U256>)
        ensures
            r is Some <==> rhs@ != 0,
            r is Some ==> r->0@ == self@ / rhs@,
    {
        if rhs.is_zero() {
            None
        } else {
            Some(self.div(rhs))
        }
    }
}

/// The lowest `len` bytes of `n`, most significant first.
pub open spec fn be_bytes(n: nat, len: nat) -> Seq<u8> {
    Seq::new(len, |i: int| ((n / pow2((8 * (len - 1 - i)) as nat)) % 256) as u8)
}

/// The words of a number, read as base-2^64 digits, order as the numbers do.
pub proof fn lemma_view_order(a: U256, b: U256)
    ensures
        a@ < b@ <==> (a.limbs[3] < b.limbs[3] || (a.limbs[3] == b.limbs[3] && (a.limbs[2]
            < b.limbs[2] || (a.limbs[2] == b.limbs[2] && (a.limbs[1] < b.limbs[1] || (a.limbs[1]
            == b.limbs[1] && a.limbs[0] < b.limbs[0])))))),
{
}

/// Two numbers are the same exactly when their words are.
pub proof fn lemma_view_injective(a: U256, b: U256)
    ensures
        a@ == b@ <==> a.limbs@ == b.limbs@,
        a.limbs@ == b.limbs@ <==> (a.limbs[0] == b.limbs[0] && a.limbs[1] == b.limbs[1]
            && a.limbs[2] == b.limbs[2] && a.limbs[3] == b.limbs[3]),
{
    lemma_view_order(a, b);
    lemma_view_order(b, a);
    if a.limbs[0] == b.limbs[0] && a.limbs[1] == b.limbs[1] && a.limbs[2] == b.limbs[2]
        && a.limbs[3] == b.limbs[3] {
        assert(a.limbs@ =~= b.limbs@);
    }
}

} // verus!
