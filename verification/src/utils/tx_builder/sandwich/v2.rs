//! Payloads for pools of the V2 kind: each carries a block-number stamp and
//! the pool's address.

use vstd::prelude::*;
use vstd::arithmetic::power2::{lemma2_to64, lemma2_to64_rest, pow2};
use crate::types::address::{precedes, Address};
use crate::types::pool::Pool;
use crate::types::uint::{be_bytes, lemma_view_bound, U256};
use crate::utils::constants::{get_weth_address, weth_address_bytes};
use crate::utils::{encode_packed, lemma_packed_take, PackedToken, TakeLastXBytes};
use crate::utils::tx_builder::sandwich::{
    byte_shift_of, decoded, find_byte_shift, get_weth_encode_divisor, lemma_decode_bounds,
    lemma_dust_decreases, lemma_weth_rounded_idempotent, mantissa_of, weth_encode_divisor,
    weth_rounded, EncodedSwapValue,
};

verus! {

/// The code paths of the contract that a V2 payload can select.
#[derive(Clone, Copy, Debug, PartialEq, Eq)]
pub enum JumpLabelV2 {
    InputSingle,
    Output0Single,
    Output1Single,
    InputMultiFirst,
    InputMultiNext,
    OutputMultiFirst,
    OutputMultiNext,
}

/// Every code path takes five bytes of the contract's dispatch table.
pub const JUMP_LABEL_STRIDE: u32 = 5;

/// Where the single-hop code paths begin.
pub const START_OFFSET_SINGLE: u32 = 48;

/// Where the multi-hop code paths begin.
pub const START_OFFSET_MULTI: u32 = 83;

impl JumpLabelV2 {
    /// The label's place in the table.
    pub open spec fn spec_index(self) -> int {
        match self {
            JumpLabelV2::InputSingle => 0,
            JumpLabelV2::Output0Single => 1,
            JumpLabelV2::Output1Single => 2,
            JumpLabelV2::InputMultiFirst => 3,
            JumpLabelV2::InputMultiNext => 4,
            JumpLabelV2::OutputMultiFirst => 5,
            JumpLabelV2::OutputMultiNext => 6,
        }
    }

    /// The byte offset of the label's code path: its family's start and five
    /// bytes for every label before it in the family.
    pub open spec fn offset(self) -> nat {
        if self.spec_index() < 3 {
            (START_OFFSET_SINGLE + JUMP_LABEL_STRIDE * self.spec_index()) as nat
        } else {
            (START_OFFSET_MULTI + JUMP_LABEL_STRIDE * (self.spec_index() - 3)) as nat
        }
    }

    /// The label's place in the table.
    pub fn index(self) -> (r: usize)
        ensures
            r == self.spec_index(),
    {
        match self {
            JumpLabelV2::InputSingle => 0,
            JumpLabelV2::Output0Single => 1,
            JumpLabelV2::Output1Single => 2,
            JumpLabelV2::InputMultiFirst => 3,
            JumpLabelV2::InputMultiNext => 4,
            JumpLabelV2::OutputMultiFirst => 5,
            JumpLabelV2::OutputMultiNext => 6,
        }
    }
}

/// No two labels stand for the same code path.
pub proof fn lemma_offsets_distinct(a: JumpLabelV2, b: JumpLabelV2)
    requires
        a != b,
    ensures
        a.offset() != b.offset(),
{
}

/// The label for a swap: for a multi-hop payload its position and direction
/// decide, for a single-hop one its direction and, where the base asset comes
/// out, whether the base asset is the pool's first token.
pub open spec fn swap_label(
    is_multiple: bool,
    is_first_of_payload: bool,
    is_weth_input: bool,
    is_weth_token0: bool,
) -> JumpLabelV2 {
    if is_multiple {
        if is_weth_input {
            if is_first_of_payload {
                JumpLabelV2::InputMultiFirst
            } else {
                JumpLabelV2::InputMultiNext
            }
        } else {
            if is_first_of_payload {
                JumpLabelV2::OutputMultiFirst
            } else {
                JumpLabelV2::OutputMultiNext
            }
        }
    } else {
        if is_weth_input {
            JumpLabelV2::InputSingle
        } else if is_weth_token0 {
            JumpLabelV2::Output0Single
        } else {
            JumpLabelV2::Output1Single
        }
    }
}

/// Whether the base asset sorts before `other_token`, and so is the first
/// token of their pool.
pub open spec fn weth_is_token0(other_token: Seq<u8>) -> bool {
    precedes(weth_address_bytes(), other_token)
}

/// The memory offset of a four-byte mantissa that lost `byte_shift` bytes.
pub open spec fn four_byte_mem_offset(
    byte_shift: nat,
    is_weth_input: bool,
    is_weth_token0: bool,
) -> int {
    if is_weth_input && !is_weth_token0 {
        32 - byte_shift
    } else {
        64 - byte_shift
    }
}

/// The memory offset of a five-byte mantissa that lost `byte_shift` bytes.
pub open spec fn five_byte_mem_offset(byte_shift: nat, is_weth_token0: bool) -> int {
    if is_weth_token0 {
        68 - byte_shift
    } else {
        100 - byte_shift
    }
}

/// The call-data of a single-hop swap that pays the base asset in: block stamp,
/// jump label and memory offset of one byte each, the pool, and the four-byte
/// mantissa of the amount that comes out.
pub open spec fn payload_weth_is_input(
    label: JumpLabelV2,
    block_number: nat,
    amount_out: nat,
    other_token: Seq<u8>,
    pair_address: Seq<u8>,
) -> Seq<u8> {
    be_bytes(block_number, 1) + be_bytes(label.offset(), 1) + be_bytes(
        four_byte_mem_offset(byte_shift_of(amount_out, 4), true, weth_is_token0(other_token)) as nat,
        1,
    ) + pair_address + be_bytes(mantissa_of(amount_out, 4), 4)
}

/// The call-data of a single-hop swap that gets the base asset out: block
/// stamp, jump label and memory offset of one byte each, the pool, the token
/// paid in, and the four-byte mantissa of the amount paid in.
pub open spec fn payload_weth_is_output(
    label: JumpLabelV2,
    block_number: nat,
    amount_in: nat,
    other_token: Seq<u8>,
    pair_address: Seq<u8>,
) -> Seq<u8> {
    be_bytes(block_number, 1) + be_bytes(label.offset(), 1) + be_bytes(
        four_byte_mem_offset(byte_shift_of(amount_in, 4), false, weth_is_token0(other_token)) as nat,
        1,
    ) + pair_address + other_token + be_bytes(mantissa_of(amount_in, 4), 4)
}

/// The call-data of a multi-hop leg that gets the base asset out. The first
/// leg of a payload ends with the memory offset of the five-byte amount that
/// comes out, which travels as the call value; a later leg carries that
/// amount's mantissa in front of the offset.
pub open spec fn multi_payload_weth_is_output(
    block_number: nat,
    amount_in: nat,
    amount_out: nat,
    other_token: Seq<u8>,
    pair_address: Seq<u8>,
    is_first: bool,
) -> Seq<u8> {
    let head = payload_weth_is_output(
        swap_label(true, is_first, false, weth_is_token0(other_token)),
        block_number,
        amount_in,
        other_token,
        pair_address,
    );
    let out_offset = be_bytes(
        five_byte_mem_offset(byte_shift_of(amount_out, 5), weth_is_token0(other_token)) as nat,
        1,
    );
    if is_first {
        head + out_offset
    } else {
        head + be_bytes(mantissa_of(amount_out, 5), 5) + out_offset
    }
}

/// The payload builder for V2 pools, with its table of jump labels.
#[derive(Debug, Clone)]
pub struct SandwichLogicV2 {
    jump_labels: Vec<u32>,
}

impl SandwichLogicV2 {
    /// The table holds the offset of every label at the label's index.
    pub closed spec fn wf(&self) -> bool {
        &&& self.jump_labels@.len() == 7
        &&& forall|label: JumpLabelV2|
            self.jump_labels@[#[trigger] label.spec_index()] == label.offset()
    }

    /// Builds the table: each family's labels five bytes apart, from the
    /// family's start.
    pub fn new() -> (r: Self)
        ensures
            r.wf(),
    {
        let mut jump_labels: Vec<u32> = Vec::new();

        let mut x: u32 = 0;
        while x < 3
            invariant
                x <= 3,
                jump_labels@.len() == x,
                forall|k: int|
                    0 <= k < x ==> jump_labels@[k] == START_OFFSET_SINGLE + JUMP_LABEL_STRIDE * k,
            decreases 3 - x,
        {
            jump_labels.push(START_OFFSET_SINGLE + JUMP_LABEL_STRIDE * x);
            x += 1;
        }

        let mut x: u32 = 0;
        while x < 4
            invariant
                x <= 4,
                jump_labels@.len() == 3 + x,
                forall|k: int|
                    0 <= k < 3 ==> jump_labels@[k] == START_OFFSET_SINGLE + JUMP_LABEL_STRIDE * k,
                forall|k: int|
                    3 <= k < 3 + x ==> jump_labels@[k] == START_OFFSET_MULTI + JUMP_LABEL_STRIDE
                        * (k - 3),
            decreases 4 - x,
        {
            jump_labels.push(START_OFFSET_MULTI + JUMP_LABEL_STRIDE * x);
            x += 1;
        }

        let r = SandwichLogicV2 { jump_labels };
        assert forall|label: JumpLabelV2|
            r.jump_labels@[#[trigger] label.spec_index()] == label.offset() by {}
        r
    }

    /// The offset that the table holds for `label`.
    pub fn jump_label(&self, label: JumpLabelV2) -> (r: u32)
        requires
            self.wf(),
        ensures
            r == label.offset(),
    {
        self.jump_labels[label.index()]
    }

    /// The jump label of a swap, as the number that goes into the payload.
    pub fn _find_swap_type(
        &self,
        is_multiple: bool,
        is_first_of_payload: bool,
        is_weth_input: bool,
        other_token_addr: Address,
    ) -> (r: U256)
        requires
            self.wf(),
        ensures
            r@ == swap_label(
                is_multiple,
                is_first_of_payload,
                is_weth_input,
                weth_is_token0(other_token_addr@),
            ).offset(),
    {
        let weth_addr = get_weth_address();

        let swap_type = if is_multiple {
            match (is_first_of_payload, is_weth_input) {
                (true, true) => self.jump_label(JumpLabelV2::InputMultiFirst),
                (false, true) => self.jump_label(JumpLabelV2::InputMultiNext),
                (true, false) => self.jump_label(JumpLabelV2::OutputMultiFirst),
                (false, false) => self.jump_label(JumpLabelV2::OutputMultiNext),
            }
        } else {
            match (is_weth_input, weth_addr.lt(&other_token_addr)) {
                (true, _) => self.jump_label(JumpLabelV2::InputSingle),
                (false, true) => self.jump_label(JumpLabelV2::Output0Single),
                (false, false) => self.jump_label(JumpLabelV2::Output1Single),
            }
        };

        U256::from_u64(swap_type as u64)
    }

    /// The call-data and call value of a single-hop swap that pays the base
    /// asset in.
    pub fn create_payload_weth_is_input(
        &self,
        block_number: U256,
        amount_in: U256,
        amount_out: U256,
        other_token: Address,
        pair: Pool,
    ) -> (r: (Vec<u8>, U256))
        requires
            self.wf(),
        ensures
            r.0@ == payload_weth_is_input(
                JumpLabelV2::InputSingle,
                block_number@,
                amount_out@,
                other_token@,
                pair.address@,
            ),
            r.1@ == amount_in@ / weth_encode_divisor(),
    {
        let encoded_swap_value = encode_four_bytes(
            amount_out,
            true,
            get_weth_address().lt(&other_token),
        );

        let swap_type = self._find_swap_type(false, false, true, other_token);

        let tokens = [
            PackedToken::NumberWithShift(block_number, TakeLastXBytes(8)),
            PackedToken::NumberWithShift(swap_type, TakeLastXBytes(8)),
            PackedToken::NumberWithShift(encoded_swap_value.mem_offset, TakeLastXBytes(8)),
            PackedToken::Address(pair.address),
            PackedToken::NumberWithShift(encoded_swap_value.encoded_value, TakeLastXBytes(32)),
        ];
        let payload = encode_packed(&tokens);
        proof {
            lemma_packed_take(tokens@, 0);
            lemma_packed_take(tokens@, 1);
            lemma_packed_take(tokens@, 2);
            lemma_packed_take(tokens@, 3);
            lemma_packed_take(tokens@, 4);
        }

        let encoded_call_value = amount_in.div(get_weth_encode_divisor());
        (payload, encoded_call_value)
    }

    /// The call-data and call value of a single-hop swap that gets the base
    /// asset out.
    pub fn create_payload_weth_is_output(
        &self,
        block_number: U256,
        amount_in: U256,
        amount_out: U256,
        other_token: Address,
        pair: Pool,
    ) -> (r: (Vec<u8>, U256))
        requires
            self.wf(),
        ensures
            r.0@ == payload_weth_is_output(
                swap_label(false, false, false, weth_is_token0(other_token@)),
                block_number@,
                amount_in@,
                other_token@,
                pair.address@,
            ),
            r.1@ == amount_out@ / weth_encode_divisor(),
    {
        let encoded_swap_value = encode_four_bytes(
            amount_in,
            false,
            get_weth_address().lt(&other_token),
        );

        let swap_type = self._find_swap_type(false, false, false, other_token);

        let tokens = [
            PackedToken::NumberWithShift(block_number, TakeLastXBytes(8)),
            PackedToken::NumberWithShift(swap_type, TakeLastXBytes(8)),
            PackedToken::NumberWithShift(encoded_swap_value.mem_offset, TakeLastXBytes(8)),
            PackedToken::Address(pair.address),
            PackedToken::Address(other_token),
            PackedToken::NumberWithShift(encoded_swap_value.encoded_value, TakeLastXBytes(32)),
        ];
        let payload = encode_packed(&tokens);
        proof {
            lemma_packed_take(tokens@, 0);
            lemma_packed_take(tokens@, 1);
            lemma_packed_take(tokens@, 2);
            lemma_packed_take(tokens@, 3);
            lemma_packed_take(tokens@, 4);
            lemma_packed_take(tokens@, 5);
        }

        let encoded_call_value = amount_out.div(get_weth_encode_divisor());
        (payload, encoded_call_value)
    }

    /// The call-data and call value of one leg of a multi-hop payload that pays
    /// the base asset in. The first leg sends the amount as its call value; a
    /// later leg carries it in five more bytes and sends no value.
    pub fn create_multi_payload_weth_is_input(
        &self,
        block_number: U256,
        amount_in: U256,
        amount_out: U256,
        other_token: Address,
        pair: Pool,
        is_first: bool,
    ) -> (r: (Vec<u8>, U256))
        requires
            self.wf(),
        ensures
            r.0@ == payload_weth_is_input(
                swap_label(true, is_first, true, weth_is_token0(other_token@)),
                block_number@,
                amount_out@,
                other_token@,
                pair.address@,
            ) + (if is_first {
                Seq::<u8>::empty()
            } else {
                be_bytes(amount_in@ / weth_encode_divisor(), 5)
            }),
            r.1@ == (if is_first {
                amount_in@ / weth_encode_divisor()
            } else {
                0
            }),
    {
        let encoded_amount_out_swap_value = encode_four_bytes(
            amount_out,
            true,
            get_weth_address().lt(&other_token),
        );

        let swap_type = self._find_swap_type(true, is_first, true, other_token);
        let encoded_amount_in = amount_in.div(get_weth_encode_divisor());
        let mut callvalue = U256::from_u64(0);
        let payload = if is_first {
            callvalue = encoded_amount_in;
            let tokens = [
                PackedToken::NumberWithShift(block_number, TakeLastXBytes(8)),
                PackedToken::NumberWithShift(swap_type, TakeLastXBytes(8)),
                PackedToken::NumberWithShift(
                    encoded_amount_out_swap_value.mem_offset,
                    TakeLastXBytes(8),
                ),
                PackedToken::Address(pair.address),
                PackedToken::NumberWithShift(
                    encoded_amount_out_swap_value.encoded_value,
                    TakeLastXBytes(32),
                ),
            ];
            proof {
                lemma_packed_take(tokens@, 0);
                lemma_packed_take(tokens@, 1);
                lemma_packed_take(tokens@, 2);
                lemma_packed_take(tokens@, 3);
                lemma_packed_take(tokens@, 4);
            }
            let payload = encode_packed(&tokens);
            assert(payload@ =~= payload@ + Seq::<u8>::empty());
            payload
        } else {
            let tokens = [
                PackedToken::NumberWithShift(block_number, TakeLastXBytes(8)),
                PackedToken::NumberWithShift(swap_type, TakeLastXBytes(8)),
                PackedToken::NumberWithShift(
                    encoded_amount_out_swap_value.mem_offset,
                    TakeLastXBytes(8),
                ),
                PackedToken::Address(pair.address),
                PackedToken::NumberWithShift(
                    encoded_amount_out_swap_value.encoded_value,
                    TakeLastXBytes(32),
                ),
                PackedToken::NumberWithShift(encoded_amount_in, TakeLastXBytes(40)),
            ];
            proof {
                lemma_packed_take(tokens@, 0);
                lemma_packed_take(tokens@, 1);
                lemma_packed_take(tokens@, 2);
                lemma_packed_take(tokens@, 3);
                lemma_packed_take(tokens@, 4);
                lemma_packed_take(tokens@, 5);
            }
            encode_packed(&tokens)
        };

        (payload, callvalue)
    }

    /// The call-data and call value of one leg of a multi-hop payload that gets
    /// the base asset out. The first leg sends the five-byte mantissa of the
    /// amount that comes out as its call value; a later leg carries it in the
    /// call-data and sends no value.
    pub fn create_multi_payload_weth_is_output(
        &self,
        block_number: U256,
        amount_in: U256,
        amount_out: U256,
        other_token: Address,
        pair: Pool,
        is_first: bool,
    ) -> (r: (Vec<u8>, U256))
        requires
            self.wf(),
        ensures
            r.0@ == multi_payload_weth_is_output(
                block_number@,
                amount_in@,
                amount_out@,
                other_token@,
                pair.address@,
                is_first,
            ),
            r.1@ == (if is_first {
                mantissa_of(amount_out@, 5)
            } else {
                0
            }),
    {
        let encoded_amount_out_swap_value = encode_five_bytes(
            amount_out,
            get_weth_address().lt(&other_token),
        );

        let swap_type = self._find_swap_type(true, is_first, false, other_token);
        let encoded_amount_in_swap_value = encode_four_bytes(
            amount_in,
            false,
            get_weth_address().lt(&other_token),
        );
        let mut callvalue = U256::from_u64(0);
        let payload = if is_first {
            callvalue = encoded_amount_out_swap_value.encoded_value;
            let tokens = [
                PackedToken::NumberWithShift(block_number, TakeLastXBytes(8)),
                PackedToken::NumberWithShift(swap_type, TakeLastXBytes(8)),
                PackedToken::NumberWithShift(
                    encoded_amount_in_swap_value.mem_offset,
                    TakeLastXBytes(8),
                ),
                PackedToken::Address(pair.address),
                PackedToken::Address(other_token),
                PackedToken::NumberWithShift(
                    encoded_amount_in_swap_value.encoded_value,
                    TakeLastXBytes(32),
                ),
                PackedToken::NumberWithShift(
                    encoded_amount_out_swap_value.mem_offset,
                    TakeLastXBytes(8),
                ),
            ];
            proof {
                lemma_packed_take(tokens@, 0);
                lemma_packed_take(tokens@, 1);
                lemma_packed_take(tokens@, 2);
                lemma_packed_take(tokens@, 3);
                lemma_packed_take(tokens@, 4);
                lemma_packed_take(tokens@, 5);
                lemma_packed_take(tokens@, 6);
            }
            encode_packed(&tokens)
        } else {
            let tokens = [
                PackedToken::NumberWithShift(block_number, TakeLastXBytes(8)),
                PackedToken::NumberWithShift(swap_type, TakeLastXBytes(8)),
                PackedToken::NumberWithShift(
                    encoded_amount_in_swap_value.mem_offset,
                    TakeLastXBytes(8),
                ),
                PackedToken::Address(pair.address),
                PackedToken::Address(other_token),
                PackedToken::NumberWithShift(
                    encoded_amount_in_swap_value.encoded_value,
                    TakeLastXBytes(32),
                ),
                PackedToken::NumberWithShift(
                    encoded_amount_out_swap_value.encoded_value,
                    TakeLastXBytes(40),
                ),
                PackedToken::NumberWithShift(
                    encoded_amount_out_swap_value.mem_offset,
                    TakeLastXBytes(8),
                ),
            ];
            proof {
                lemma_packed_take(tokens@, 0);
                lemma_packed_take(tokens@, 1);
                lemma_packed_take(tokens@, 2);
                lemma_packed_take(tokens@, 3);
                lemma_packed_take(tokens@, 4);
                lemma_packed_take(tokens@, 5);
                lemma_packed_take(tokens@, 6);
                lemma_packed_take(tokens@, 7);
            }
            encode_packed(&tokens)
        };

        (payload, callvalue)
    }
}

/// Packs `amount` into four bytes and a byte shift, and says where in memory the
/// contract is to put it.
pub fn encode_four_bytes(amount: U256, is_weth_input: bool, is_weth_token0: bool) -> (r:
    EncodedSwapValue)
    ensures
        r.encoded_value@ == mantissa_of(amount@, 4),
        r.byte_shift@ == byte_shift_of(amount@, 4),
        r.mem_offset@ == four_byte_mem_offset(byte_shift_of(amount@, 4), is_weth_input, is_weth_token0),
        r.byte_shift@ <= 28,
        r.encoded_value@ < 0x1_0000_0000,
        r.decodable(),
{
    let (four_byte_encoded_value, byte_shift) = find_byte_shift(amount, 4);
    proof {
        lemma2_to64();
        lemma_view_bound(amount);
    }

    match (is_weth_input, is_weth_token0) {
        // the mantissa goes behind a selector and two words
        (false, _) => EncodedSwapValue::new(
            four_byte_encoded_value,
            U256::from_u64((64 - byte_shift) as u64),
            U256::from_u64(byte_shift as u64),
        ),
        (true, true) => EncodedSwapValue::new(
            four_byte_encoded_value,
            U256::from_u64((64 - byte_shift) as u64),
            U256::from_u64(byte_shift as u64),
        ),
        // the mantissa goes behind a selector and one word
        (true, false) => EncodedSwapValue::new(
            four_byte_encoded_value,
            U256::from_u64((32 - byte_shift) as u64),
            U256::from_u64(byte_shift as u64),
        ),
    }
}

/// Packs `amount` into five bytes and a byte shift, and says where in memory
/// the contract is to put it.
pub fn encode_five_bytes(amount: U256, is_weth_token0: bool) -> (r: EncodedSwapValue)
    ensures
        r.encoded_value@ == mantissa_of(amount@, 5),
        r.byte_shift@ == byte_shift_of(amount@, 5),
        r.mem_offset@ == five_byte_mem_offset(byte_shift_of(amount@, 5), is_weth_token0),
        r.byte_shift@ <= 27,
        r.encoded_value@ < 0x100_0000_0000,
        r.decodable(),
{
    let (five_byte_encoded_value, byte_shift) = find_byte_shift(amount, 5);
    proof {
        lemma2_to64();
        lemma2_to64_rest();
        lemma_view_bound(amount);
    }

    let mem_offset: u8 = if is_weth_token0 {
        68 - byte_shift
    } else {
        100 - byte_shift
    };

    EncodedSwapValue::new(
        five_byte_encoded_value,
        U256::from_u64(mem_offset as u64),
        U256::from_u64(byte_shift as u64),
    )
}

/// The amount that the contract sees when the mantissa is lowered by one, so
/// that some dust of the token stays on the contract.
pub fn encode_intermediary_token(
    amount_in: U256,
    is_weth_input: bool,
    intermediary_address: Address,
) -> (r: U256)
    requires
        amount_in@ > 0,
    ensures
        r@ == decoded((mantissa_of(amount_in@, 4) - 1) as nat, byte_shift_of(amount_in@, 4)),
        r@ < amount_in@,
{
    let mut backrun_in = encode_four_bytes(
        amount_in,
        is_weth_input,
        get_weth_address().lt(&intermediary_address),
    );
    proof {
        lemma_dust_decreases(amount_in@, 4);
    }

    // keep some dust, so that the token's storage slot never goes to zero
    backrun_in.encoded_value = backrun_in.encoded_value.sub(U256::from_u64(1));
    backrun_in.decode()
}

/// The amount that the contract sees after packing: the amount with the bytes
/// below the mantissa cleared.
pub fn decode_intermediary(
    amount_in: U256,
    is_weth_input: bool,
    intermediary_address: Address,
) -> (r: U256)
    ensures
        r@ == decoded(mantissa_of(amount_in@, 4), byte_shift_of(amount_in@, 4)),
        r@ <= amount_in@,
        amount_in@ - r@ < pow2(8 * byte_shift_of(amount_in@, 4)),
{
    let encoded = encode_four_bytes(
        amount_in,
        is_weth_input,
        get_weth_address().lt(&intermediary_address),
    );
    proof {
        lemma_decode_bounds(amount_in@, 4);
    }
    encoded.decode()
}

/// The call value that the contract works with: `amount_in` rounded down to
/// the call-value unit.
pub fn encode_weth(amount_in: U256) -> (r: U256)
    ensures
        r@ == weth_rounded(amount_in@),
{
    proof {
        lemma_weth_rounded_idempotent(amount_in@);
        lemma_view_bound(amount_in);
    }
    amount_in.div(get_weth_encode_divisor()).mul(get_weth_encode_divisor())
}

} // verus!
