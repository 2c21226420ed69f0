//! Building the call-data of the searcher's transactions.

pub mod sandwich;

use vstd::prelude::*;
use crate::types::address::{precedes, Address};
use crate::types::pool::Pool;
use crate::types::signed::I256;
use crate::types::uint::{modulus, U256};
use crate::utils::tx_builder::sandwich::v2::{
    payload_weth_is_input as v2_payload_weth_is_input,
    payload_weth_is_output as v2_payload_weth_is_output, swap_label as v2_swap_label,
    weth_is_token0, JumpLabelV2, SandwichLogicV2,
};
use crate::utils::tx_builder::sandwich::v3::{
    payload_weth_is_input as v3_payload_weth_is_input,
    payload_weth_is_output as v3_payload_weth_is_output, pool_key_hash_of,
    swap_label as v3_swap_label, SandwichLogicV3,
};
use crate::utils::tx_builder::sandwich::weth_encode_divisor;

verus! {

/// A swap on a V2 pool.
#[derive(Clone, Copy, Debug)]
pub struct SwapV2 {
    pub block_number: U256,
    pub amount_in: U256,
    pub amount_out: U256,
    /// The token that is not the base asset.
    pub other_token: Address,
    pub pair: Pool,
}

/// A swap on a V3 pool.
#[derive(Clone, Copy, Debug)]
pub struct SwapV3 {
    pub amount_in: I256,
    pub amount_out: I256,
    pub input: Address,
    pub output: Address,
    pub pool: Pool,
}

/// One leg of a sandwich, before it is encoded.
#[derive(Clone, Copy, Debug)]
pub enum SwapRequest {
    V2WethIsInput(SwapV2),
    V2WethIsOutput(SwapV2),
    V3WethIsInput(SwapV3),
    V3WethIsOutput(SwapV3),
}

impl SwapRequest {
    /// The amounts of a V3 swap are ones that a `u128` holds.
    pub open spec fn wf(&self) -> bool {
        match self {
            SwapRequest::V3WethIsInput(s) | SwapRequest::V3WethIsOutput(s) => {
                s.amount_in.fits_u128() && s.amount_out.fits_u128()
            },
            _ => true,
        }
    }

    /// The call-data that the swap is encoded to.
    pub open spec fn payload(&self) -> Seq<u8> {
        match self {
            SwapRequest::V2WethIsInput(s) => v2_payload_weth_is_input(
                JumpLabelV2::InputSingle,
                s.block_number@,
                s.amount_out@,
                s.other_token@,
                s.pair.address@,
            ),
            SwapRequest::V2WethIsOutput(s) => v2_payload_weth_is_output(
                v2_swap_label(false, false, false, weth_is_token0(s.other_token@)),
                s.block_number@,
                s.amount_in@,
                s.other_token@,
                s.pair.address@,
            ),
            SwapRequest::V3WethIsInput(s) => v3_payload_weth_is_input(
                v3_swap_label(false, true, precedes(s.input@, s.output@)),
                s.amount_out@ as nat,
                s.pool.address@,
                pool_key_hash_of(s.pool),
            ),
            SwapRequest::V3WethIsOutput(s) => v3_payload_weth_is_output(
                v3_swap_label(false, false, precedes(s.input@, s.output@)),
                s.amount_in@ as nat,
                s.pool.address@,
                s.input@,
                pool_key_hash_of(s.pool),
            ),
        }
    }

    /// The call value that goes with the call-data: the base-asset amount of
    /// the swap in call-value units.
    pub open spec fn value(&self) -> int {
        match self {
            SwapRequest::V2WethIsInput(s) => s.amount_in@ as int / weth_encode_divisor() as int,
            SwapRequest::V2WethIsOutput(s) => s.amount_out@ as int / weth_encode_divisor() as int,
            SwapRequest::V3WethIsInput(s) => s.amount_in@ / weth_encode_divisor() as int,
            SwapRequest::V3WethIsOutput(s) => s.amount_out@ / weth_encode_divisor() as int,
        }
    }
}

/// One leg of a sandwich as it goes into a transaction.
#[derive(Debug)]
pub struct SandwichLeg {
    pub payload: Vec<u8>,
    pub value: U256,
}

/// The payload builders of both pool kinds and the searcher's next nonce.
#[derive(Debug)]
pub struct SandwichMaker {
    pub v2: SandwichLogicV2,
    pub v3: SandwichLogicV3,
    pub nonce: U256,
}

impl SandwichMaker {
    /// Both jump-label tables are as they were built.
    pub open spec fn wf(&self) -> bool {
        self.v2.wf() && self.v3.wf()
    }

    /// A maker whose next nonce is `nonce`.
    pub fn new(nonce: U256) -> (r: Self)
        ensures
            r.wf(),
            r.nonce == nonce,
    {
        SandwichMaker { v2: SandwichLogicV2::new(), v3: SandwichLogicV3::new(), nonce }
    }

    /// Moves on to the next nonce.
    pub fn update_searcher_nonce(&mut self)
        requires
            old(self).nonce@ + 1 < modulus(),
        ensures
            final(self).nonce@ == old(self).nonce@ + 1,
            final(self).v2 == old(self).v2,
            final(self).v3 == old(self).v3,
    {
        self.nonce = self.nonce.add(U256::from_u64(1));
    }

    /// Encodes one leg of a sandwich with the builder of its pool's kind.
    pub fn build_leg(&self, request: &SwapRequest) -> (leg: SandwichLeg)
        requires
            self.wf(),
            request.wf(),
        ensures
            leg.payload@ == request.payload(),
            leg.value@ == request.value(),
    {
        let (payload, value) = match request {
            SwapRequest::V2WethIsInput(s) => self.v2.create_payload_weth_is_input(
                s.block_number,
                s.amount_in,
                s.amount_out,
                s.other_token,
                s.pair,
            ),
            SwapRequest::V2WethIsOutput(s) => self.v2.create_payload_weth_is_output(
                s.block_number,
                s.amount_in,
                s.amount_out,
                s.other_token,
                s.pair,
            ),
            SwapRequest::V3WethIsInput(s) => self.v3.create_payload_weth_is_input(
                s.amount_in,
                s.amount_out,
                s.input,
                s.output,
                s.pool,
            ),
            SwapRequest::V3WethIsOutput(s) => self.v3.create_payload_weth_is_output(
                s.amount_in,
                s.amount_out,
                s.input,
                s.output,
                s.pool,
            ),
        };
        SandwichLeg { payload, value }
    }
}

} // verus!
