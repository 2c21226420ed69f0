//! Payloads for pools of the V3 kind: each carries the hash of the pool's key
//! in place of a block-number stamp.

use vstd::prelude::*;
use vstd::arithmetic::power2::{lemma2_to64, lemma2_to64_rest, lemma_pow2_adds, pow2};
use crate::types::address::{precedes, Address};
use crate::types::signed::I256;
use crate::types::pool::Pool;
use crate::types::uint::{be_bytes, lemma_view_bound, U256};
use crate::utils::{encode_packed, lemma_packed_take, PackedToken, TakeLastXBytes};
use crate::utils::tx_builder::sandwich::{
    byte_shift_of, decoded, find_byte_shift, get_weth_encode_divisor, lemma_byte_shift_bound,
    lemma_decode_bounds, lemma_weth_rounded_idempotent, mantissa_of, weth_encode_divisor,
    weth_rounded, EncodedSwapValue,
};

verus! {

/// The code paths of the contract that a V3 payload can select.
#[derive(Clone, Copy, Debug, PartialEq, Eq)]
pub enum JumpLabelV3 {
    Input0,
    Input1,
    Output0,
    Output1,
    MultiPre,
    Input0Multi,
    Input1Multi,
    Output0Multi,
    Output1Multi,
}

/// Every code path takes five bytes of the contract's dispatch table.
pub const JUMP_LABEL_STRIDE: u32 = 5;

/// Where the single-hop code paths begin.
pub const START_OFFSET_SINGLE: u32 = 54;

/// Where the multi-hop code paths begin.
pub const START_OFFSET_MULTI: u32 = 94;

impl JumpLabelV3 {
    /// The label's place in the table.
    pub open spec fn spec_index(self) -> int {
        match self {
            JumpLabelV3::Input0 => 0,
            JumpLabelV3::Input1 => 1,
            JumpLabelV3::Output0 => 2,
            JumpLabelV3::Output1 => 3,
            JumpLabelV3::MultiPre => 4,
            JumpLabelV3::Input0Multi => 5,
            JumpLabelV3::Input1Multi => 6,
            JumpLabelV3::Output0Multi => 7,
            JumpLabelV3::Output1Multi => 8,
        }
    }

    /// The byte offset of the label's code path: its family's start and five
    /// bytes for every label before it in the family.
    pub open spec fn offset(self) -> nat {
        if self.spec_index() < 4 {
            (START_OFFSET_SINGLE + JUMP_LABEL_STRIDE * self.spec_index()) as nat
        } else {
            (START_OFFSET_MULTI + JUMP_LABEL_STRIDE * (self.spec_index() - 4)) as nat
        }
    }

    /// The label's place in the table.
    pub fn index(self) -> (r: usize)
        ensures
            r == self.spec_index(),
    {
        match self {
            JumpLabelV3::Input0 => 0,
            JumpLabelV3::Input1 => 1,
            JumpLabelV3::Output0 => 2,
            JumpLabelV3::Output1 => 3,
            JumpLabelV3::MultiPre => 4,
            JumpLabelV3::Input0Multi => 5,
            JumpLabelV3::Input1Multi => 6,
            JumpLabelV3::Output0Multi => 7,
            JumpLabelV3::Output1Multi => 8,
        }
    }
}

/// No two labels stand for the same code path.
pub proof fn lemma_offsets_distinct(a: JumpLabelV3, b: JumpLabelV3)
    requires
        a != b,
    ensures
        a.offset() != b.offset(),
{
}

/// The label for a swap: whether it is a leg of a multi-hop payload, whether
/// the base asset is paid in, and whether the token paid in sorts before the
/// token that comes out.
pub open spec fn swap_label(is_multiple: bool, is_weth_input: bool, input_is_token0: bool) -> JumpLabelV3 {
    if is_multiple {
        if is_weth_input {
            if input_is_token0 {
                JumpLabelV3::Input0Multi
            } else {
                JumpLabelV3::Input1Multi
            }
        } else {
            if input_is_token0 {
                JumpLabelV3::Output1Multi
            } else {
                JumpLabelV3::Output0Multi
            }
        }
    } else {
        if is_weth_input {
            if input_is_token0 {
                JumpLabelV3::Input0
            } else {
                JumpLabelV3::Input1
            }
        } else {
            if input_is_token0 {
                JumpLabelV3::Output1
            } else {
                JumpLabelV3::Output0
            }
        }
    }
}

/// The digest that Keccak-256 gives for `bytes`.
pub uninterp spec fn keccak256_digest(bytes: Seq<u8>) -> Seq<u8>;

/// An address as one word of the contract ABI: twelve zero bytes, then the
/// address.
pub open spec fn abi_address_word(address: Seq<u8>) -> Seq<u8> {
    Seq::new(12, |i: int| 0u8) + address
}

/// The bytes whose hash names a pool: its two tokens and its fee, one ABI word
/// each.
pub open spec fn pool_key_preimage(token_0: Seq<u8>, token_1: Seq<u8>, fee: nat) -> Seq<u8> {
    abi_address_word(token_0) + abi_address_word(token_1) + be_bytes(fee, 32)
}

/// The hash that names `pool`.
pub open spec fn pool_key_hash_of(pool: Pool) -> Seq<u8> {
    keccak256_digest(pool_key_preimage(pool.token_0@, pool.token_1@, pool.swap_fee@))
}

/// `ethers::abi::encode` on two addresses and an unsigned number: each of the
/// three is laid out as one 32-byte word, addresses padded with zeros in front,
/// the number most significant byte first.
#[verifier::external_body]
fn abi_encode_pool_key(token_0: &Address, token_1: &Address, fee: &U256) -> (encoded: Vec<u8>)
    ensures
        encoded@ == pool_key_preimage(token_0@, token_1@, fee@),
{
    ethers::abi::encode(
        &[
            ethers::abi::Token::Address(ethers::types::H160(token_0.bytes)),
            ethers::abi::Token::Address(ethers::types::H160(token_1.bytes)),
            ethers::abi::Token::Uint(ethers::types::U256(fee.limbs)),
        ],
    )
}

/// `ethers::utils::keccak256`: the 32-byte Keccak-256 digest of `bytes`.
#[verifier::external_body]
fn keccak256(bytes: &Vec<u8>) -> (digest: Vec<u8>)
    ensures
        digest@ == keccak256_digest(bytes@),
        digest@.len() == 32,
{
    ethers::utils::keccak256(bytes).to_vec()
}

/// The hash that names `pool` in a payload.
pub fn pool_key_hash(pool: &Pool) -> (hash: Vec<u8>)
    ensures
        hash@ == pool_key_hash_of(*pool),
        hash@.len() == 32,
{
    let encoded = abi_encode_pool_key(&pool.token_0, &pool.token_1, &pool.swap_fee);
    keccak256(&encoded)
}

/// The field that tells the contract how far to shift a mantissa of `width`
/// bytes that lost `byte_shift` bytes, in bits.
pub open spec fn shift_field(width: nat, byte_shift: nat) -> nat {
    ((32 - width - byte_shift) * 8) as nat
}

/// The call-data of a single-hop swap that pays the base asset in: the jump
/// label, the pool, the shift and the five-byte mantissa of the amount that
/// comes out, and the pool's key hash.
pub open spec fn payload_weth_is_input(
    label: JumpLabelV3,
    amount_out: nat,
    pool_address: Seq<u8>,
    pool_key_hash: Seq<u8>,
) -> Seq<u8> {
    be_bytes(label.offset(), 1) + pool_address + be_bytes(
        shift_field(5, byte_shift_of(amount_out, 5)),
        1,
    ) + be_bytes(mantissa_of(amount_out, 5), 5) + pool_key_hash
}

/// The call-data of a single-hop swap that gets the base asset out: the jump
/// label, the pool, the shift and the five-byte mantissa of the amount paid in,
/// the token paid in, and the pool's key hash.
pub open spec fn payload_weth_is_output(
    label: JumpLabelV3,
    amount_in: nat,
    pool_address: Seq<u8>,
    input: Seq<u8>,
    pool_key_hash: Seq<u8>,
) -> Seq<u8> {
    be_bytes(label.offset(), 1) + pool_address + be_bytes(
        shift_field(5, byte_shift_of(amount_in, 5)),
        1,
    ) + be_bytes(mantissa_of(amount_in, 5), 5) + input + pool_key_hash
}

/// The fields that every leg of a multi-hop payload has: the jump label, the
/// pool, the amount that comes out (packed for five bytes, of which the lowest
/// four are sent), the amount paid in (packed for four bytes, sent in five),
/// each behind its shift, and the pool's key hash.
pub open spec fn multi_payload_data(
    label: JumpLabelV3,
    amount_in: nat,
    amount_out: nat,
    pool_address: Seq<u8>,
    pool_key_hash: Seq<u8>,
) -> Seq<u8> {
    be_bytes(label.offset(), 1) + pool_address + be_bytes(
        shift_field(4, byte_shift_of(amount_out, 5)),
        1,
    ) + be_bytes(mantissa_of(amount_out, 5), 4) + be_bytes(
        shift_field(5, byte_shift_of(amount_in, 4)),
        1,
    ) + be_bytes(mantissa_of(amount_in, 4), 5) + pool_key_hash
}

/// One leg of a multi-hop payload: the first leg has the multi-hop entry label
/// in front of the fields that every leg has.
pub open spec fn multi_payload(
    label: JumpLabelV3,
    amount_in: nat,
    amount_out: nat,
    pool_address: Seq<u8>,
    pool_key_hash: Seq<u8>,
    is_first: bool,
) -> Seq<u8> {
    let data = multi_payload_data(label, amount_in, amount_out, pool_address, pool_key_hash);
    if is_first {
        be_bytes(JumpLabelV3::MultiPre.offset(), 1) + data
    } else {
        data
    }
}

/// An amount that a `u128` holds loses at most `16 - width` bytes.
proof fn lemma_u128_byte_shift(amount: nat, width: nat)
    requires
        amount <= u128::MAX,
        width <= 16,
    ensures
        byte_shift_of(amount, width) + width <= 16,
{
    lemma2_to64();
    lemma2_to64_rest();
    lemma_pow2_adds(64, 64);
    lemma_byte_shift_bound(amount, width, 16);
}

/// The payload builder for V3 pools, with its table of jump labels.
#[derive(Debug, Clone)]
pub struct SandwichLogicV3 {
    jump_labels: Vec<u32>,
}

impl SandwichLogicV3 {
    /// The table holds the offset of every label at the label's index.
    pub closed spec fn wf(&self) -> bool {
        &&& self.jump_labels@.len() == 9
        &&& forall|label: JumpLabelV3|
            self.jump_labels@[#[trigger] label.spec_index()] == label.offset()
    }

    /// Builds the table: each family's labels five bytes apart, from the
    /// family's start.
    pub fn new() -> (r: Self)
        ensures
            r.wf(),
    {
        let mut jump_labels: Vec<u32> = Vec::new();

        let mut x: u32 = 0;
        while x < 4
            invariant
                x <= 4,
                jump_labels@.len() == x,
                forall|k: int|
                    0 <= k < x ==> jump_labels@[k] == START_OFFSET_SINGLE + JUMP_LABEL_STRIDE * k,
            decreases 4 - x,
        {
            jump_labels.push(START_OFFSET_SINGLE + JUMP_LABEL_STRIDE * x);
            x += 1;
        }

        let mut x: u32 = 0;
        while x < 5
            invariant
                x <= 5,
                jump_labels@.len() == 4 + x,
                forall|k: int|
                    0 <= k < 4 ==> jump_labels@[k] == START_OFFSET_SINGLE + JUMP_LABEL_STRIDE * k,
                forall|k: int|
                    4 <= k < 4 + x ==> jump_labels@[k] == START_OFFSET_MULTI + JUMP_LABEL_STRIDE
                        * (k - 4),
            decreases 5 - x,
        {
            jump_labels.push(START_OFFSET_MULTI + JUMP_LABEL_STRIDE * x);
            x += 1;
        }

        let r = SandwichLogicV3 { jump_labels };
        assert forall|label: JumpLabelV3|
            r.jump_labels@[#[trigger] label.spec_index()] == label.offset() by {}
        r
    }

    /// The offset that the table holds for `label`.
    pub fn jump_label(&self, label: JumpLabelV3) -> (r: u32)
        requires
            self.wf(),
        ensures
            r == label.offset(),
    {
        self.jump_labels[label.index()]
    }

    /// The jump label of a swap, as the number that goes into the payload.
    pub fn _find_swap_type(
        &self,
        is_multiple: bool,
        is_weth_input: bool,
        input: Address,
        output: Address,
    ) -> (r: U256)
        requires
            self.wf(),
        ensures
            r@ == swap_label(is_multiple, is_weth_input, precedes(input@, output@)).offset(),
    {
        let swap_type: u32 = if is_multiple {
            match (is_weth_input, input.lt(&output)) {
                (true, true) => self.jump_label(JumpLabelV3::Input0Multi),
                (true, false) => self.jump_label(JumpLabelV3::Input1Multi),
                (false, true) => self.jump_label(JumpLabelV3::Output1Multi),
                (false, false) => self.jump_label(JumpLabelV3::Output0Multi),
            }
        } else {
            match (is_weth_input, input.lt(&output)) {
                (true, true) => self.jump_label(JumpLabelV3::Input0),
                (true, false) => self.jump_label(JumpLabelV3::Input1),
                (false, true) => self.jump_label(JumpLabelV3::Output1),
                (false, false) => self.jump_label(JumpLabelV3::Output0),
            }
        };

        U256::from_u64(swap_type as u64)
    }

    /// The call-data and call value of a single-hop swap that pays the base
    /// asset in.
    pub fn create_payload_weth_is_input(
        &self,
        amount_in: I256,
        amount_out: I256,
        input: Address,
        output: Address,
        pool: Pool,
    ) -> (r: (Vec<u8>, U256))
        requires
            self.wf(),
            amount_in.fits_u128(),
            amount_out.fits_u128(),
        ensures
            r.0@ == payload_weth_is_input(
                swap_label(false, true, precedes(input@, output@)),
                amount_out@ as nat,
                pool.address@,
                pool_key_hash_of(pool),
            ),
            r.1@ == amount_in@ / weth_encode_divisor() as int,
    {
        let pool_key_hash = pool_key_hash(&pool);
        self.pack_payload_weth_is_input(
            amount_in,
            amount_out,
            input,
            output,
            pool,
            pool_key_hash.as_slice(),
        )
    }

    /// The call-data and call value of a single-hop swap that pays the base
    /// asset in, for a pool whose key hash is given.
    pub fn pack_payload_weth_is_input(
        &self,
        amount_in: I256,
        amount_out: I256,
        input: Address,
        output: Address,
        pool: Pool,
        pool_key_hash: &[u8],
    ) -> (r: (Vec<u8>, U256))
        requires
            self.wf(),
            amount_in.fits_u128(),
            amount_out.fits_u128(),
        ensures
            r.0@ == payload_weth_is_input(
                swap_label(false, true, precedes(input@, output@)),
                amount_out@ as nat,
                pool.address@,
                pool_key_hash@,
            ),
            r.1@ == amount_in@ / weth_encode_divisor() as int,
    {
        let swap_type = self._find_swap_type(false, true, input, output);
        let encoded_swap_value: EncodedSwapValue = encode_num_bytes(
            U256::from_u128(amount_out.as_u128()),
            5,
        );
        proof {
            lemma_u128_byte_shift(amount_out@ as nat, 5);
        }

        let tokens = [
            PackedToken::NumberWithShift(swap_type, TakeLastXBytes(8)),
            PackedToken::Address(pool.address),
            PackedToken::NumberWithShift(
                U256::from_u64((32 - 5 - encoded_swap_value.byte_shift.as_u64()) * 8),
                TakeLastXBytes(8),
            ),
            PackedToken::NumberWithShift(encoded_swap_value.encoded_value, TakeLastXBytes(40)),
            PackedToken::Bytes(pool_key_hash),
        ];
        let payload = encode_packed(&tokens);
        proof {
            lemma_packed_take(tokens@, 0);
            lemma_packed_take(tokens@, 1);
            lemma_packed_take(tokens@, 2);
            lemma_packed_take(tokens@, 3);
            lemma_packed_take(tokens@, 4);
        }

        let encoded_call_value = U256::from_u128(amount_in.as_u128()).div(
            get_weth_encode_divisor(),
        );

        (payload, encoded_call_value)
    }

    /// The call-data and call value of a single-hop swap that gets the base
    /// asset out.
    pub fn create_payload_weth_is_output(
        &self,
        amount_in: I256,
        amount_out: I256,
        input: Address,
        output: Address,
        pool: Pool,
    ) -> (r: (Vec<u8>, U256))
        requires
            self.wf(),
            amount_in.fits_u128(),
            amount_out.fits_u128(),
        ensures
            r.0@ == payload_weth_is_output(
                swap_label(false, false, precedes(input@, output@)),
                amount_in@ as nat,
                pool.address@,
                input@,
                pool_key_hash_of(pool),
            ),
            r.1@ == amount_out@ / weth_encode_divisor() as int,
    {
        let pool_key_hash = pool_key_hash(&pool);
        self.pack_payload_weth_is_output(
            amount_in,
            amount_out,
            input,
            output,
            pool,
            pool_key_hash.as_slice(),
        )
    }

    /// The call-data and call value of a single-hop swap that gets the base
    /// asset out, for a pool whose key hash is given.
    pub fn pack_payload_weth_is_output(
        &self,
        amount_in: I256,
        amount_out: I256,
        input: Address,
        output: Address,
        pool: Pool,
        pool_key_hash: &[u8],
    ) -> (r: (Vec<u8>, U256))
        requires
            self.wf(),
            amount_in.fits_u128(),
            amount_out.fits_u128(),
        ensures
            r.0@ == payload_weth_is_output(
                swap_label(false, false, precedes(input@, output@)),
                amount_in@ as nat,
                pool.address@,
                input@,
                pool_key_hash@,
            ),
            r.1@ == amount_out@ / weth_encode_divisor() as int,
    {
        let swap_type = self._find_swap_type(false, false, input, output);
        let encoded_swap_value = encode_num_bytes(U256::from_u128(amount_in.as_u128()), 5);
        proof {
            lemma_u128_byte_shift(amount_in@ as nat, 5);
        }

        let tokens = [
            PackedToken::NumberWithShift(swap_type, TakeLastXBytes(8)),
            PackedToken::Address(pool.address),
            PackedToken::NumberWithShift(
                U256::from_u64((32 - 5 - encoded_swap_value.byte_shift.as_u64()) * 8),
                TakeLastXBytes(8),
            ),
            PackedToken::NumberWithShift(encoded_swap_value.encoded_value, TakeLastXBytes(40)),
            PackedToken::Address(input),
            PackedToken::Bytes(pool_key_hash),
        ];
        let payload = encode_packed(&tokens);
        proof {
            lemma_packed_take(tokens@, 0);
            lemma_packed_take(tokens@, 1);
            lemma_packed_take(tokens@, 2);
            lemma_packed_take(tokens@, 3);
            lemma_packed_take(tokens@, 4);
            lemma_packed_take(tokens@, 5);
        }
        let encoded_call_value = U256::from_u128(amount_out.as_u128()).div(
            get_weth_encode_divisor(),
        );

        (payload, encoded_call_value)
    }

    /// The call-data of one leg of a multi-hop payload that pays the base asset
    /// in. It sends no call value.
    pub fn create_multi_payload_weth_is_input(
        &self,
        amount_in: I256,
        amount_out: I256,
        input: Address,
        output: Address,
        pool: Pool,
        is_first: bool,
    ) -> (r: (Vec<u8>, U256))
        requires
            self.wf(),
            amount_in.fits_u128(),
            amount_out.fits_u128(),
        ensures
            r.0@ == multi_payload(
                swap_label(true, true, precedes(input@, output@)),
                amount_in@ as nat,
                amount_out@ as nat,
                pool.address@,
                pool_key_hash_of(pool),
                is_first,
            ),
            r.1@ == 0,
    {
        let swap_type = self._find_swap_type(true, true, input, output);
        let pool_key_hash = pool_key_hash(&pool);
        self.pack_multi_payload(
            swap_type,
            amount_in,
            amount_out,
            pool,
            pool_key_hash.as_slice(),
            is_first,
        )
    }

    /// The call-data of one leg of a multi-hop payload that gets the base asset
    /// out. It sends no call value.
    pub fn create_multi_payload_weth_is_output(
        &self,
        amount_in: I256,
        amount_out: I256,
        input: Address,
        output: Address,
        pool: Pool,
        is_first: bool,
    ) -> (r: (Vec<u8>, U256))
        requires
            self.wf(),
            amount_in.fits_u128(),
            amount_out.fits_u128(),
        ensures
            r.0@ == multi_payload(
                swap_label(true, false, precedes(input@, output@)),
                amount_in@ as nat,
                amount_out@ as nat,
                pool.address@,
                pool_key_hash_of(pool),
                is_first,
            ),
            r.1@ == 0,
    {
        let swap_type = self._find_swap_type(true, false, input, output);
        let pool_key_hash = pool_key_hash(&pool);
        self.pack_multi_payload(
            swap_type,
            amount_in,
            amount_out,
            pool,
            pool_key_hash.as_slice(),
            is_first,
        )
    }

    /// The call-data of one leg of a multi-hop payload, for a jump label that
    /// was looked up and a pool whose key hash is given.
    pub fn pack_multi_payload(
        &self,
        swap_type: U256,
        amount_in: I256,
        amount_out: I256,
        pool: Pool,
        pool_key_hash: &[u8],
        is_first: bool,
    ) -> (r: (Vec<u8>, U256))
        requires
            self.wf(),
            amount_in.fits_u128(),
            amount_out.fits_u128(),
        ensures
            r.0@ == (if is_first {
                be_bytes(JumpLabelV3::MultiPre.offset(), 1)
            } else {
                Seq::<u8>::empty()
            }) + be_bytes(swap_type@, 1) + pool.address@ + be_bytes(
                shift_field(4, byte_shift_of(amount_out@ as nat, 5)),
                1,
            ) + be_bytes(mantissa_of(amount_out@ as nat, 5), 4) + be_bytes(
                shift_field(5, byte_shift_of(amount_in@ as nat, 4)),
                1,
            ) + be_bytes(mantissa_of(amount_in@ as nat, 4), 5) + pool_key_hash@,
            r.1@ == 0,
    {
        let encoded_amount_in_swap_value: EncodedSwapValue = encode_num_bytes(
            U256::from_u128(amount_in.as_u128()),
            4,
        );
        let encoded_amount_out_swap_value: EncodedSwapValue = encode_num_bytes(
            U256::from_u128(amount_out.as_u128()),
            5,
        );
        proof {
            lemma_u128_byte_shift(amount_in@ as nat, 4);
            lemma_u128_byte_shift(amount_out@ as nat, 5);
        }

        let v3_multi_pre_sig = self.jump_label(JumpLabelV3::MultiPre);
        let tokens = [
            PackedToken::NumberWithShift(swap_type, TakeLastXBytes(8)),
            PackedToken::Address(pool.address),
            PackedToken::NumberWithShift(
                U256::from_u64((32 - 4 - encoded_amount_out_swap_value.byte_shift.as_u64()) * 8),
                TakeLastXBytes(8),
            ),
            PackedToken::NumberWithShift(
                encoded_amount_out_swap_value.encoded_value,
                TakeLastXBytes(32),
            ),
            PackedToken::NumberWithShift(
                U256::from_u64((32 - 5 - encoded_amount_in_swap_value.byte_shift.as_u64()) * 8),
                TakeLastXBytes(8),
            ),
            PackedToken::NumberWithShift(
                encoded_amount_in_swap_value.encoded_value,
                TakeLastXBytes(40),
            ),
            PackedToken::Bytes(pool_key_hash),
        ];
        let payload_data = encode_packed(&tokens);
        proof {
            lemma_packed_take(tokens@, 0);
            lemma_packed_take(tokens@, 1);
            lemma_packed_take(tokens@, 2);
            lemma_packed_take(tokens@, 3);
            lemma_packed_take(tokens@, 4);
            lemma_packed_take(tokens@, 5);
            lemma_packed_take(tokens@, 6);
        }
        let payload = if is_first {
            let framed = [
                PackedToken::NumberWithShift(
                    U256::from_u64(v3_multi_pre_sig as u64),
                    TakeLastXBytes(8),
                ),
                PackedToken::Bytes(payload_data.as_slice()),
            ];
            proof {
                lemma_packed_take(framed@, 0);
                lemma_packed_take(framed@, 1);
            }
            let payload = encode_packed(&framed);
            assert(payload@ =~= be_bytes(JumpLabelV3::MultiPre.offset(), 1) + payload_data@);
            payload
        } else {
            assert(payload_data@ =~= Seq::<u8>::empty() + payload_data@);
            payload_data
        };

        (payload, U256::zero())
    }
}

/// Packs `amount` into `num_bytes` bytes and a byte shift, and says where in
/// memory the contract is to put it.
pub fn encode_num_bytes(amount: U256, num_bytes: u8) -> (r: EncodedSwapValue)
    requires
        1 <= num_bytes <= 31,
    ensures
        r.encoded_value@ == mantissa_of(amount@, num_bytes as nat),
        r.byte_shift@ == byte_shift_of(amount@, num_bytes as nat),
        r.mem_offset@ == 68 - num_bytes - byte_shift_of(amount@, num_bytes as nat),
        r.byte_shift@ + num_bytes <= 32,
        r.encoded_value@ < pow2(8 * num_bytes as nat),
        r.decodable(),
{
    let (encoded_value, byte_shift) = find_byte_shift(amount, num_bytes);
    proof {
        lemma_view_bound(amount);
    }
    EncodedSwapValue::new(
        encoded_value,
        U256::from_u64((68 - num_bytes - byte_shift) as u64),
        U256::from_u64(byte_shift as u64),
    )
}

/// The amount that the contract sees after packing into five bytes.
pub fn encode_intermediary_token(amount_in: U256) -> (r: U256)
    ensures
        r@ == decoded(mantissa_of(amount_in@, 5), byte_shift_of(amount_in@, 5)),
        r@ <= amount_in@,
        amount_in@ - r@ < pow2(8 * byte_shift_of(amount_in@, 5)),
{
    let backrun_in = encode_num_bytes(amount_in, 5);
    proof {
        lemma_decode_bounds(amount_in@, 5);
    }
    backrun_in.decode()
}

/// The amount that the contract sees after packing into five bytes.
pub fn decode_intermediary(amount_in: U256) -> (r: U256)
    ensures
        r@ == decoded(mantissa_of(amount_in@, 5), byte_shift_of(amount_in@, 5)),
        r@ <= amount_in@,
        amount_in@ - r@ < pow2(8 * byte_shift_of(amount_in@, 5)),
{
    let encoded = encode_num_bytes(amount_in, 5);
    proof {
        lemma_decode_bounds(amount_in@, 5);
    }
    encoded.decode()
}

/// The call value that the contract works with: `amount_in` rounded down to
/// the call-value unit.
pub fn encode_weth(amount_in: U256) -> (r: U256)
    ensures
        r@ == weth_rounded(amount_in@),
{
    proof {
        lemma_weth_rounded_idempotent(amount_in@);
        lemma_view_bound(amount_in);
    }
    amount_in.div(get_weth_encode_divisor()).mul(get_weth_encode_divisor())
}

} // verus!
