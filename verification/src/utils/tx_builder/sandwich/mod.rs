//! The packed-value encoder: an amount is kept as a short mantissa and the
//! number of low-order bytes that were dropped from it.

pub mod v2;
pub mod v3;

use vstd::prelude::*;
use vstd::arithmetic::div_mod::{
    lemma_div_denominator, lemma_fundamental_div_mod, lemma_multiply_divide_lt,
};
use vstd::arithmetic::power2::{
    lemma2_to64, lemma_pow2, lemma_pow2_adds, lemma_pow2_pos, lemma_pow2_strictly_increases, pow2,
};
use crate::types::uint::{lemma_modulus_is_pow2, lemma_view_bound, modulus, U256};

verus! {

/// Whether `amount`, with its lowest `shift` bytes dropped, fits in `width` bytes.
pub open spec fn fits(amount: nat, width: nat, shift: nat) -> bool {
    amount / pow2(8 * shift) < pow2(8 * width)
}

/// The least number of low-order bytes to drop from `amount` so that what is
/// left fits in `width` bytes.
pub open spec fn byte_shift_of(amount: nat, width: nat) -> nat
    decreases amount,
{
    if amount == 0 || amount < pow2(8 * width) {
        0
    } else {
        1 + byte_shift_of(amount / 256, width)
    }
}

/// What is left of `amount` when `byte_shift_of(amount, width)` bytes are dropped.
pub open spec fn mantissa_of(amount: nat, width: nat) -> nat {
    amount / pow2(8 * byte_shift_of(amount, width))
}

/// The amount that a mantissa and a byte shift stand for.
pub open spec fn decoded(mantissa: nat, byte_shift: nat) -> nat {
    mantissa * pow2(8 * byte_shift)
}

/// The unit to which call values are rounded down.
pub open spec fn weth_encode_divisor() -> nat {
    100000
}

/// `amount` rounded down to a multiple of the call-value unit.
pub open spec fn weth_rounded(amount: nat) -> nat {
    (amount / weth_encode_divisor()) * weth_encode_divisor()
}

/// Dropping `shift + 1` bytes is dropping one byte and then `shift` more.
proof fn lemma_shift_step(amount: nat, shift: nat)
    ensures
        amount / pow2(8 * (shift + 1)) == (amount / 256) / pow2(8 * shift),
{
    lemma2_to64();
    lemma_pow2_adds(8, 8 * shift);
    lemma_pow2_pos(8 * shift);
    lemma_div_denominator(amount as int, 256, pow2(8 * shift) as int);
}

/// With `byte_shift_of` bytes dropped the amount fits: the mantissa is below
/// 2^(8 * width).
pub proof fn lemma_mantissa_fits(amount: nat, width: nat)
    ensures
        fits(amount, width, byte_shift_of(amount, width)),
        mantissa_of(amount, width) < pow2(8 * width),
    decreases amount,
{
    lemma2_to64();
    lemma_pow2_pos(8 * width);
    if amount == 0 || amount < pow2(8 * width) {
        assert(amount / pow2(0) == amount);
    } else {
        lemma_mantissa_fits(amount / 256, width);
        lemma_shift_step(amount, byte_shift_of(amount / 256, width));
    }
}

/// With fewer than `byte_shift_of` bytes dropped the amount does not fit.
pub proof fn lemma_byte_shift_least(amount: nat, width: nat, shift: nat)
    requires
        shift < byte_shift_of(amount, width),
    ensures
        !fits(amount, width, shift),
    decreases amount,
{
    lemma2_to64();
    if shift == 0 {
        assert(amount / pow2(0) == amount);
    } else {
        lemma_byte_shift_least(amount / 256, width, (shift - 1) as nat);
        lemma_shift_step(amount, (shift - 1) as nat);
    }
}

/// The first shift at which the amount fits is `byte_shift_of`.
pub proof fn lemma_byte_shift_unique(amount: nat, width: nat, shift: nat)
    requires
        fits(amount, width, shift),
        forall|t: nat| t < shift ==> !fits(amount, width, t),
    ensures
        shift == byte_shift_of(amount, width),
{
    lemma_mantissa_fits(amount, width);
    if shift < byte_shift_of(amount, width) {
        lemma_byte_shift_least(amount, width, shift);
    }
}

/// An amount of at most `total` bytes needs at most `total - width` bytes
/// dropped.
pub proof fn lemma_byte_shift_bound(amount: nat, width: nat, total: nat)
    requires
        amount < pow2(8 * total),
        width <= total,
    ensures
        byte_shift_of(amount, width) + width <= total,
{
    let most = (total - width) as nat;
    lemma_pow2_adds(8 * most, 8 * width);
    lemma_pow2_pos(8 * most);
    lemma_pow2_pos(8 * width);
    assert(pow2(8 * most) * pow2(8 * width) == pow2(8 * width) * pow2(8 * most))
        by (nonlinear_arith);
    lemma_multiply_divide_lt(amount as int, pow2(8 * most) as int, pow2(8 * width) as int);
    assert(fits(amount, width, most));
    if most < byte_shift_of(amount, width) {
        lemma_byte_shift_least(amount, width, most);
    }
}

/// The mantissa of a positive amount is positive.
pub proof fn lemma_mantissa_positive(amount: nat, width: nat)
    requires
        amount > 0,
        width >= 1,
    ensures
        mantissa_of(amount, width) >= 1,
{
    let shift = byte_shift_of(amount, width);
    lemma2_to64();
    if shift == 0 {
        assert(amount / pow2(0) == amount);
    } else {
        let below = (shift - 1) as nat;
        lemma_byte_shift_least(amount, width, below);
        lemma_pow2_adds(8 * below, 8);
        lemma_pow2_pos(8 * below);
        lemma_div_denominator(amount as int, pow2(8 * below) as int, 256);
        lemma_pow2_adds(8, (8 * width - 8) as nat);
        lemma_pow2_pos((8 * width - 8) as nat);
        assert(pow2(8 * width) >= 256) by (nonlinear_arith)
            requires
                pow2(8 * width) == 256 * pow2((8 * width - 8) as nat),
                pow2((8 * width - 8) as nat) > 0,
        ;
    }
}

/// Taking one off the mantissa before decoding gives strictly less than
/// decoding the mantissa itself.
pub proof fn lemma_dust_decreases(amount: nat, width: nat)
    requires
        amount > 0,
        width >= 1,
    ensures
        mantissa_of(amount, width) >= 1,
        decoded((mantissa_of(amount, width) - 1) as nat, byte_shift_of(amount, width)) < decoded(
            mantissa_of(amount, width),
            byte_shift_of(amount, width),
        ),
        decoded((mantissa_of(amount, width) - 1) as nat, byte_shift_of(amount, width)) < amount,
{
    lemma_mantissa_positive(amount, width);
    lemma_decode_bounds(amount, width);
    let unit = pow2(8 * byte_shift_of(amount, width));
    lemma_pow2_pos(8 * byte_shift_of(amount, width));
    let m = mantissa_of(amount, width);
    assert(((m - 1) as nat) * unit < m * unit) by (nonlinear_arith)
        requires
            m >= 1,
            unit > 0,
    ;
}

/// Decoding loses less than one unit of the dropped bytes, and never adds:
/// `decoded <= amount < decoded + 2^(8 * byte_shift)`.
pub proof fn lemma_decode_bounds(amount: nat, width: nat)
    ensures
        decoded(mantissa_of(amount, width), byte_shift_of(amount, width)) <= amount,
        amount - decoded(mantissa_of(amount, width), byte_shift_of(amount, width)) < pow2(
            8 * byte_shift_of(amount, width),
        ),
{
    let unit = pow2(8 * byte_shift_of(amount, width));
    lemma_pow2_pos(8 * byte_shift_of(amount, width));
    lemma_fundamental_div_mod(amount as int, unit as int);
    assert((amount / unit) * unit == unit * (amount / unit)) by (nonlinear_arith);
}

/// Rounding a call value twice is rounding it once.
pub proof fn lemma_weth_rounded_idempotent(amount: nat)
    ensures
        weth_rounded(weth_rounded(amount)) == weth_rounded(amount),
        weth_rounded(amount) <= amount,
{
}

/// An amount in its packed form, with the place where the contract finds it.
#[derive(Clone, Copy, Debug)]
pub struct EncodedSwapValue {
    /// The mantissa.
    pub encoded_value: U256,
    /// The offset in memory at which the contract stores the mantissa.
    pub mem_offset: U256,
    /// The number of low-order bytes that were dropped.
    pub byte_shift: U256,
}

impl EncodedSwapValue {
    /// The packed value with the given mantissa, memory offset and byte shift.
    pub fn new(encoded_value: U256, mem_offset: U256, byte_shift: U256) -> (r: Self)
        ensures
            r.encoded_value == encoded_value,
            r.mem_offset == mem_offset,
            r.byte_shift == byte_shift,
    {
        EncodedSwapValue { encoded_value, mem_offset, byte_shift }
    }

    /// The amount that the value stands for is below 2^256.
    pub open spec fn decodable(&self) -> bool {
        self.byte_shift@ <= 31 && decoded(self.encoded_value@, self.byte_shift@) < modulus()
    }

    /// The amount that the contract will see.
    pub fn decode(&self) -> (r: U256)
        requires
            self.decodable(),
        ensures
            r@ == decoded(self.encoded_value@, self.byte_shift@),
    {
        let bits = U256::from_u64(8).mul(self.byte_shift);
        proof {
            lemma_power_of_two_fits(bits@);
        }
        self.encoded_value.mul(U256::from_u64(2).pow(bits))
    }
}

/// 2^bits is a 256-bit number for `bits` below 256, and is what `pow` gives.
proof fn lemma_power_of_two_fits(bits: nat)
    requires
        bits < 256,
    ensures
        vstd::arithmetic::power::pow(2, bits) == pow2(bits),
        pow2(bits) < modulus(),
{
    lemma_pow2(bits);
    lemma_modulus_is_pow2();
    lemma_pow2_strictly_increases(bits, 256);
}

/// The unit to which call values are rounded down.
pub fn get_weth_encode_divisor() -> (r: U256)
    ensures
        r@ == weth_encode_divisor(),
{
    U256::from_u64(100000)
}

/// Finds the least byte shift at which `amount` fits in `width` bytes, and
/// returns the mantissa with it.
pub fn find_byte_shift(amount: U256, width: u8) -> (r: (U256, u8))
    requires
        1 <= width <= 31,
    ensures
        r.0@ == mantissa_of(amount@, width as nat),
        r.1 == byte_shift_of(amount@, width as nat),
        r.1 + width <= 32,
        fits(amount@, width as nat, r.1 as nat),
        forall|t: nat| t < r.1 ==> !fits(amount@, width as nat, t),
        r.0@ < pow2(8 * width as nat),
        decoded(r.0@, r.1 as nat) <= amount@,
        amount@ - decoded(r.0@, r.1 as nat) < pow2(8 * r.1 as nat),
{
    proof {
        lemma_power_of_two_fits(8 * width as nat);
        lemma_view_bound(amount);
        lemma_modulus_is_pow2();
        lemma_byte_shift_bound(amount@, width as nat, 32);
    }
    let limit = U256::from_u64(2).pow(U256::from_u64(8 * (width as u64)));
    let mut i: u8 = 0;
    loop
        invariant
            1 <= width <= 31,
            i + width <= 32,
            limit@ == pow2(8 * width as nat),
            forall|t: nat| t < i ==> !fits(amount@, width as nat, t),
            i <= byte_shift_of(amount@, width as nat),
            byte_shift_of(amount@, width as nat) + width <= 32,
        decreases 32 - i,
    {
        proof {
            lemma_power_of_two_fits(8 * i as nat);
            lemma_pow2_pos(8 * i as nat);
        }
        let encoded_amount = amount.div(U256::from_u64(2).pow(U256::from_u64(8 * (i as u64))));
        if encoded_amount.lt(&limit) {
            proof {
                lemma_byte_shift_unique(amount@, width as nat, i as nat);
                lemma_decode_bounds(amount@, width as nat);
            }
            return (encoded_amount, i);
        }
        proof {
            lemma_mantissa_fits(amount@, width as nat);
        }
        i += 1;
    }
}

} // verus!
