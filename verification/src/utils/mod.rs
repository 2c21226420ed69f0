//! The payload assembler: typed fields laid end to end, without padding or
//! length prefixes.

pub mod constants;
pub mod tx_builder;

use vstd::prelude::*;
use vstd::arithmetic::div_mod::{lemma_breakdown, lemma_div_denominator};
use vstd::arithmetic::power2::{lemma2_to64, lemma_pow2_adds, lemma_pow2_pos, pow2};
use crate::types::address::Address;
use crate::types::uint::{be_bytes, U256};

verus! {

/// How much of a number a field keeps, counted in bits: the field holds the
/// lowest `self.0 / 8` bytes.
#[derive(Clone, Copy, Debug)]
pub struct TakeLastXBytes(pub usize);

/// One field of a payload.
#[derive(Clone, Copy, Debug)]
pub enum PackedToken<'a> {
    /// A number cut down to its lowest bytes.
    NumberWithShift(U256, TakeLastXBytes),
    /// The 20 bytes of an address.
    Address(Address),
    /// Bytes taken as they are.
    Bytes(&'a [u8]),
}

impl<'a> PackedToken<'a> {
    /// A number field keeps at most the 32 bytes that a number has.
    pub open spec fn wf(&self) -> bool {
        match self {
            PackedToken::NumberWithShift(_, take) => take.0 / 8 <= 32,
            _ => true,
        }
    }

    /// The number of bytes that the field takes in a payload.
    pub open spec fn width(&self) -> nat {
        match self {
            PackedToken::NumberWithShift(_, take) => (take.0 / 8) as nat,
            PackedToken::Address(_) => 20,
            PackedToken::Bytes(b) => b@.len(),
        }
    }

    /// The bytes that the field contributes to a payload.
    pub open spec fn bytes(&self) -> Seq<u8> {
        match self {
            PackedToken::NumberWithShift(n, take) => be_bytes(n@, (take.0 / 8) as nat),
            PackedToken::Address(a) => a@,
            PackedToken::Bytes(b) => b@,
        }
    }
}

/// The fields' bytes, one field after the other.
pub open spec fn packed_bytes(items: Seq<PackedToken>) -> Seq<u8>
    decreases items.len(),
{
    if items.len() == 0 {
        Seq::empty()
    } else {
        packed_bytes(items.drop_last()) + items.last().bytes()
    }
}

/// The sum of the fields' widths.
pub open spec fn packed_width(items: Seq<PackedToken>) -> nat
    decreases items.len(),
{
    if items.len() == 0 {
        0
    } else {
        packed_width(items.drop_last()) + items.last().width()
    }
}

/// Where the field at index `k` begins in the payload.
pub open spec fn field_start(items: Seq<PackedToken>, k: int) -> int {
    packed_width(items.take(k)) as int
}

/// Where the field at index `k` ends in the payload.
pub open spec fn field_end(items: Seq<PackedToken>, k: int) -> int {
    field_start(items, k) + items[k].width()
}

/// The number that `bytes` spell, most significant byte first.
pub open spec fn be_value(bytes: Seq<u8>) -> nat
    decreases bytes.len(),
{
    if bytes.len() == 0 {
        0
    } else {
        be_value(bytes.drop_last()) * 256 + bytes.last() as nat
    }
}

/// Lays the fields end to end, in the order given.
pub fn encode_packed(items: &[PackedToken]) -> (payload: Vec<u8>)
    requires
        forall|i: int| 0 <= i < items@.len() ==> (#[trigger] items@[i]).wf(),
    ensures
        payload@ == packed_bytes(items@),
{
    let mut payload: Vec<u8> = Vec::new();
    let mut i: usize = 0;
    while i < items.len()
        invariant
            i <= items@.len(),
            forall|k: int| 0 <= k < items@.len() ==> (#[trigger] items@[k]).wf(),
            payload@ == packed_bytes(items@.take(i as int)),
        decreases items@.len() - i,
    {
        let ghost before = payload@;
        match &items[i] {
            PackedToken::NumberWithShift(n, take) => {
                let all = n.to_big_endian();
                let kept: usize = take.0 / 8;
                let mut j: usize = 32 - kept;
                while j < 32
                    invariant
                        32 - kept <= j <= 32,
                        kept <= 32,
                        all@ == be_bytes(n@, 32),
                        payload@ == before + all@.subrange(32 - kept, j as int),
                    decreases 32 - j,
                {
                    payload.push(all[j]);
                    j += 1;
                    assert(payload@ =~= before + all@.subrange(32 - kept, j as int));
                }
                assert(all@.subrange(32 - kept, 32) =~= be_bytes(n@, kept as nat));
            },
            PackedToken::Address(a) => {
                let mut j: usize = 0;
                while j < 20
                    invariant
                        j <= 20,
                        payload@ == before + a@.subrange(0, j as int),
                    decreases 20 - j,
                {
                    payload.push(a.bytes[j]);
                    j += 1;
                    assert(payload@ =~= before + a@.subrange(0, j as int));
                }
                assert(a@.subrange(0, 20) =~= a@);
            },
            PackedToken::Bytes(b) => {
                let mut j: usize = 0;
                while j < b.len()
                    invariant
                        j <= b@.len(),
                        payload@ == before + b@.subrange(0, j as int),
                    decreases b@.len() - j,
                {
                    payload.push(b[j]);
                    j += 1;
                    assert(payload@ =~= before + b@.subrange(0, j as int));
                }
                assert(b@.subrange(0, b@.len() as int) =~= b@);
            },
        }
        assert(payload@ == before + items@[i as int].bytes());
        proof {
            let next = items@.take(i + 1);
            assert(next.drop_last() =~= items@.take(i as int));
            assert(next.last() == items@[i as int]);
        }
        i += 1;
    }
    assert(items@.take(items@.len() as int) =~= items@);
    payload
}

/// The payload of the first `n + 1` fields is that of the first `n` with the
/// next field's bytes behind it.
pub proof fn lemma_packed_take(items: Seq<PackedToken>, n: int)
    requires
        0 <= n < items.len(),
    ensures
        packed_bytes(items.take(n + 1)) == packed_bytes(items.take(n)) + items[n].bytes(),
        n == 0 ==> packed_bytes(items.take(n)) == Seq::<u8>::empty(),
        n + 1 == items.len() ==> items.take(n + 1) == items,
{
    assert(items.take(n + 1).drop_last() =~= items.take(n));
    if n + 1 == items.len() {
        assert(items.take(n + 1) =~= items);
    }
}

/// A payload is exactly as long as the widths of its fields add up to.
pub proof fn lemma_packed_length(items: Seq<PackedToken>)
    ensures
        packed_bytes(items).len() == packed_width(items),
    decreases items.len(),
{
    if items.len() > 0 {
        lemma_packed_length(items.drop_last());
    }
}

/// The lowest `len` bytes of a number spell the number modulo 2^(8 * len).
pub proof fn lemma_be_bytes_value(n: nat, len: nat)
    ensures
        be_value(be_bytes(n, len)) == n % pow2(8 * len),
    decreases len,
{
    lemma2_to64();
    if len > 0 {
        let rest = (len - 1) as nat;
        let s = be_bytes(n, len);
        let t = be_bytes(n / 256, rest);
        assert forall|i: int| 0 <= i < rest implies s[i] == t[i] by {
            let e = (8 * (rest - 1 - i)) as nat;
            lemma_pow2_adds(8, e);
            lemma_pow2_pos(e);
            lemma_div_denominator(n as int, 256, pow2(e) as int);
        }
        assert(s.drop_last() =~= t);
        assert(s.last() as nat == n % 256) by {
            assert(s.last() == s[len - 1]);
            assert((8 * (len - 1 - (len - 1))) as nat == 0);
            assert(n / pow2(0) == n);
        }
        lemma_be_bytes_value(n / 256, rest);
        lemma_pow2_adds(8, 8 * rest);
        lemma_pow2_pos(8 * rest);
        lemma_breakdown(n as int, 256, pow2(8 * rest) as int);
    }
}

/// Each field stands in the payload unchanged, right behind the fields before it.
pub proof fn lemma_packed_field(items: Seq<PackedToken>, k: int)
    requires
        0 <= k < items.len(),
    ensures
        field_end(items, k) <= packed_bytes(items).len(),
        packed_bytes(items).subrange(field_start(items, k), field_end(items, k))
            == items[k].bytes(),
    decreases items.len(),
{
    let front = items.drop_last();
    let start = field_start(items, k);
    let width = items[k].width() as int;
    lemma_packed_length(front);
    lemma_packed_length(items);
    if k == items.len() - 1 {
        assert(items.take(k) =~= front);
        assert(packed_bytes(items).subrange(start, start + width) =~= items[k].bytes());
    } else {
        lemma_packed_field(front, k);
        assert(front.take(k) =~= items.take(k));
        assert(packed_bytes(items).subrange(start, start + width) =~= packed_bytes(
            front,
        ).subrange(start, start + width));
    }
}

/// Reading a number field back from the payload gives the number modulo
/// 2^(8 * K), where K is the field's width in bytes.
pub proof fn lemma_number_field_reads_back(items: Seq<PackedToken>, k: int)
    requires
        0 <= k < items.len(),
        items[k] is NumberWithShift,
    ensures
        field_end(items, k) <= packed_bytes(items).len(),
        be_value(packed_bytes(items).subrange(field_start(items, k), field_end(items, k)))
            == items[k]->NumberWithShift_0@ % pow2(8 * items[k].width()),
{
    lemma_packed_field(items, k);
    lemma_be_bytes_value(items[k]->NumberWithShift_0@, items[k].width());
}

} // verus!
