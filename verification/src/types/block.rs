//! The chain head as the pipeline tracks it: the latest block and the block
//! that is expected to follow it.

use vstd::prelude::*;
use crate::types::uint::{modulus, U256};

verus! {

/// The seconds between one block and the next.
pub const BLOCK_INTERVAL: u64 = 12;

/// The base fee moves by at most one part in this many from block to block.
pub const BASE_FEE_MAX_CHANGE_DENOMINATOR: u64 = 8;

/// What a block notification carries.
#[derive(Clone, Copy, Debug)]
pub struct BlockHeader {
    pub number: u64,
    pub timestamp: U256,
    pub base_fee_per_gas: U256,
    pub gas_used: U256,
    pub gas_limit: U256,
}

/// The fields of a block that the searcher needs.
#[derive(Clone, Copy, Debug)]
pub struct BlockInfo {
    pub number: u64,
    pub timestamp: U256,
    pub base_fee: U256,
}

/// The latest block and the prediction for the next.
#[derive(Clone, Copy, Debug)]
pub struct BlockOracle {
    pub latest_block: BlockInfo,
    pub next_block: BlockInfo,
}

/// The gas use at which the base fee stays as it is: half the gas limit.
pub open spec fn gas_target(gas_limit: nat) -> nat {
    gas_limit / 2
}

/// The base fee of the block after one with the given base fee, gas use and
/// gas limit: unchanged at the gas target, and moved up or down in proportion
/// to the distance from the target, by an eighth at most.
pub open spec fn next_base_fee(base_fee: nat, gas_used: nat, gas_limit: nat) -> int {
    let target = gas_target(gas_limit);
    if gas_used == target {
        base_fee as int
    } else if gas_used > target {
        base_fee + base_fee * (gas_used - target) / (target as int) / 8
    } else {
        base_fee - base_fee * (target - gas_used) / (target as int) / 8
    }
}

impl BlockHeader {
    /// The next base fee can be computed in 256 bits: the gas target is not
    /// zero unless it is met, and neither the product nor the sum of the rule
    /// leaves the range.
    pub open spec fn fee_computable(&self) -> bool {
        let target = gas_target(self.gas_limit@);
        let base_fee = self.base_fee_per_gas@;
        if self.gas_used@ == target {
            true
        } else if self.gas_used@ > target {
            &&& target > 0
            &&& base_fee * (self.gas_used@ - target) < modulus()
            &&& next_base_fee(base_fee, self.gas_used@, self.gas_limit@) < modulus()
        } else {
            base_fee * (target - self.gas_used@) < modulus()
        }
    }

    /// The block after this one can be predicted in machine numbers.
    pub open spec fn predictable(&self) -> bool {
        &&& self.number < u64::MAX
        &&& self.timestamp@ + BLOCK_INTERVAL < modulus()
        &&& self.fee_computable()
    }

    /// Whether the next base fee can be computed in 256 bits.
    pub fn is_fee_computable(&self) -> (b: bool)
        ensures
            b == self.fee_computable(),
    {
        let target = self.gas_limit.div(U256::from_u64(2));
        if self.gas_used.is_equal(&target) {
            true
        } else if self.gas_used.gt(&target) {
            if target.is_zero() {
                return false;
            }
            let delta = self.gas_used.sub(target);
            if !self.base_fee_per_gas.product_fits(&delta) {
                return false;
            }
            let change = self.base_fee_per_gas.mul(delta).div(target).div(U256::from_u64(8));
            self.base_fee_per_gas.sum_fits(&change)
        } else {
            let delta = target.sub(self.gas_used);
            self.base_fee_per_gas.product_fits(&delta)
        }
    }

    /// Whether the block after this one can be predicted in machine numbers.
    pub fn is_predictable(&self) -> (b: bool)
        ensures
            b == self.predictable(),
    {
        self.number < u64::MAX && self.timestamp.sum_fits(&U256::from_u64(BLOCK_INTERVAL))
            && self.is_fee_computable()
    }
}

/// The base fee that the block after `block` will have.
pub fn calculate_next_block_base_fee(block: &BlockHeader) -> (r: U256)
    requires
        block.fee_computable(),
    ensures
        r@ == next_base_fee(block.base_fee_per_gas@, block.gas_used@, block.gas_limit@),
{
    let current_base_fee_per_gas = block.base_fee_per_gas;
    let current_gas_used = block.gas_used;
    let current_gas_target = block.gas_limit.div(U256::from_u64(2));

    if current_gas_used.is_equal(&current_gas_target) {
        current_base_fee_per_gas
    } else if current_gas_used.gt(&current_gas_target) {
        let gas_used_delta = current_gas_used.sub(current_gas_target);
        let base_fee_per_gas_delta = current_base_fee_per_gas.mul(gas_used_delta).div(
            current_gas_target,
        ).div(U256::from_u64(BASE_FEE_MAX_CHANGE_DENOMINATOR));
        current_base_fee_per_gas.add(base_fee_per_gas_delta)
    } else {
        let gas_used_delta = current_gas_target.sub(current_gas_used);
        let base_fee_per_gas_delta = current_base_fee_per_gas.mul(gas_used_delta).div(
            current_gas_target,
        ).div(U256::from_u64(BASE_FEE_MAX_CHANGE_DENOMINATOR));
        proof {
            lemma_fee_decrease_bounded(
                current_base_fee_per_gas@,
                gas_used_delta@,
                current_gas_target@,
            );
        }
        current_base_fee_per_gas.sub(base_fee_per_gas_delta)
    }
}

/// A share of the base fee that is in proportion to a part of the gas target
/// is at most the base fee.
proof fn lemma_fee_decrease_bounded(base_fee: nat, delta: nat, target: nat)
    requires
        delta <= target,
        target > 0,
    ensures
        base_fee * delta / target / 8 <= base_fee,
{
    assert(base_fee * delta <= base_fee * target) by (nonlinear_arith)
        requires
            delta <= target,
    ;
    vstd::arithmetic::div_mod::lemma_div_is_ordered(
        (base_fee * delta) as int,
        (base_fee * target) as int,
        target as int,
    );
    vstd::arithmetic::div_mod::lemma_div_multiples_vanish(base_fee as int, target as int);
    assert(base_fee * target == target * base_fee) by (nonlinear_arith);
    vstd::arithmetic::div_mod::lemma_div_is_ordered(
        (base_fee * delta / target) as int,
        base_fee as int,
        8,
    );
}

impl BlockInfo {
    /// The snapshot with the given fields.
    pub fn new(number: u64, timestamp: U256, base_fee: U256) -> (r: Self)
        ensures
            r.number == number,
            r.timestamp == timestamp,
            r.base_fee == base_fee,
    {
        BlockInfo { number, timestamp, base_fee }
    }

    /// Whether this is the block expected to follow `prev_block`: its number
    /// is one more, its time one block interval later, and its base fee what
    /// the fee rule gives.
    pub open spec fn follows(&self, prev_block: BlockHeader) -> bool {
        &&& self.number == prev_block.number + 1
        &&& self.timestamp@ == prev_block.timestamp@ + BLOCK_INTERVAL
        &&& self.base_fee@ == next_base_fee(
            prev_block.base_fee_per_gas@,
            prev_block.gas_used@,
            prev_block.gas_limit@,
        )
    }

    /// The prediction for the block after `prev_block`.
    pub fn find_next_block_info(prev_block: &BlockHeader) -> (r: Self)
        requires
            prev_block.predictable(),
        ensures
            r.follows(*prev_block),
    {
        let number = prev_block.number + 1;
        let timestamp = prev_block.timestamp.add(U256::from_u64(BLOCK_INTERVAL));
        let base_fee = calculate_next_block_base_fee(prev_block);

        BlockInfo { number, timestamp, base_fee }
    }
}

impl BlockOracle {
    /// An oracle that starts from the given snapshots.
    pub fn new(latest_block: BlockInfo, next_block: BlockInfo) -> (r: Self)
        ensures
            r.latest_block == latest_block,
            r.next_block == next_block,
    {
        BlockOracle { latest_block, next_block }
    }

    /// Takes in the number of the latest block; the next block has the number
    /// after it.
    pub fn update_block_number(&mut self, block_number: u64)
        requires
            block_number < u64::MAX,
        ensures
            final(self).latest_block.number == block_number,
            final(self).next_block.number == block_number + 1,
            final(self).latest_block.timestamp == old(self).latest_block.timestamp,
            final(self).latest_block.base_fee == old(self).latest_block.base_fee,
            final(self).next_block.timestamp == old(self).next_block.timestamp,
            final(self).next_block.base_fee == old(self).next_block.base_fee,
    {
        self.latest_block.number = block_number;
        self.next_block.number = block_number + 1;
    }

    /// Takes in the time of the latest block; the next block is expected one
    /// block interval later.
    pub fn update_block_timestamp(&mut self, timestamp: U256)
        requires
            timestamp@ + BLOCK_INTERVAL < modulus(),
        ensures
            final(self).latest_block.timestamp == timestamp,
            final(self).next_block.timestamp@ == timestamp@ + BLOCK_INTERVAL,
            final(self).latest_block.number == old(self).latest_block.number,
            final(self).latest_block.base_fee == old(self).latest_block.base_fee,
            final(self).next_block.number == old(self).next_block.number,
            final(self).next_block.base_fee == old(self).next_block.base_fee,
    {
        self.latest_block.timestamp = timestamp;
        self.next_block.timestamp = timestamp.add(U256::from_u64(BLOCK_INTERVAL));
    }

    /// Takes in the base fee of the latest block; the next block's follows
    /// from it by the fee rule.
    pub fn update_base_fee(&mut self, latest_block: &BlockHeader)
        requires
            latest_block.fee_computable(),
        ensures
            final(self).latest_block.base_fee == latest_block.base_fee_per_gas,
            final(self).next_block.base_fee@ == next_base_fee(
                latest_block.base_fee_per_gas@,
                latest_block.gas_used@,
                latest_block.gas_limit@,
            ),
            final(self).latest_block.number == old(self).latest_block.number,
            final(self).latest_block.timestamp == old(self).latest_block.timestamp,
            final(self).next_block.number == old(self).next_block.number,
            final(self).next_block.timestamp == old(self).next_block.timestamp,
    {
        self.latest_block.base_fee = latest_block.base_fee_per_gas;
        self.next_block.base_fee = calculate_next_block_base_fee(latest_block);
    }

    /// Takes in a block notification: `latest` becomes the block that was
    /// announced and `next` the prediction that follows from it. Nothing of the
    /// snapshots before is kept.
    pub fn on_new_block(&mut self, block: &BlockHeader)
        requires
            block.predictable(),
        ensures
            final(self).latest_block.number == block.number,
            final(self).latest_block.timestamp == block.timestamp,
            final(self).latest_block.base_fee == block.base_fee_per_gas,
            final(self).next_block.follows(*block),
    {
        self.update_block_number(block.number);
        self.update_block_timestamp(block.timestamp);
        self.update_base_fee(block);
    }
}

} // verus!
