//! The decisions of the three block-driven tasks: the block oracle with its
//! balance sweep, the search for new pools, and the aggregation window.

use vstd::prelude::*;
use crate::runner::bundle_sender::BundleSender;
use crate::runner::state::BotState;
use crate::types::block::{BlockHeader, BlockInfo, BlockOracle};
use crate::types::uint::{be_bytes, U256};
use crate::utils::tx_builder::sandwich::{get_weth_encode_divisor, weth_encode_divisor};
use crate::utils::{encode_packed, lemma_packed_take, PackedToken, TakeLastXBytes};

verus! {

/// The jump label of the code path that hands base asset back to the searcher.
pub const RECOVER_WETH_JUMP_LABEL: u64 = 124;

/// The balance above which the contract is swept: 4.5 units of the base asset.
pub const WETH_BALANCE_HIGH_WATER: u64 = 4_500_000_000_000_000_000;

/// The amount that one sweep takes off the contract: half a unit of the base
/// asset.
pub const RECOVER_AMOUNT: u64 = 500_000_000_000_000_000;

/// The time after a block in which opportunities are gathered, in milliseconds.
pub const AGGREGATION_DELAY_MILLIS: u64 = 10_500;

/// The call-data and call value of a call that takes `recover_amount` of the
/// base asset off the contract.
pub fn get_recover_weth_payload_value(recover_amount: U256) -> (r: (Vec<u8>, U256))
    ensures
        r.0@ == be_bytes(RECOVER_WETH_JUMP_LABEL as nat, 1),
        r.1@ == recover_amount@ / weth_encode_divisor(),
{
    let swap_type = U256::from_u64(RECOVER_WETH_JUMP_LABEL);
    let tokens = [PackedToken::NumberWithShift(swap_type, TakeLastXBytes(8))];
    let payload = encode_packed(&tokens);
    proof {
        lemma_packed_take(tokens@, 0);
        assert(payload@ =~= be_bytes(RECOVER_WETH_JUMP_LABEL as nat, 1));
    }
    let value = recover_amount.div(get_weth_encode_divisor());
    (payload, value)
}

/// A call that takes base asset off the contract.
#[derive(Debug)]
pub struct RecoverWethCall {
    pub payload: Vec<u8>,
    pub value: U256,
}

/// What the balance sweep does on a block: above the high-water mark one call
/// that takes the fixed amount off the contract, and nothing otherwise.
pub fn recover_weth_if_needed(sandwich_balance: U256) -> (r: Option<RecoverWethCall>)
    ensures
        r is Some <==> sandwich_balance@ > WETH_BALANCE_HIGH_WATER,
        r is Some ==> r->0.payload@ == be_bytes(RECOVER_WETH_JUMP_LABEL as nat, 1),
        r is Some ==> r->0.value@ == RECOVER_AMOUNT as nat / weth_encode_divisor(),
{
    if sandwich_balance.gt(&U256::from_u64(WETH_BALANCE_HIGH_WATER)) {
        let recover_amount = U256::from_u64(RECOVER_AMOUNT);
        let (payload, value) = get_recover_weth_payload_value(recover_amount);
        Some(RecoverWethCall { payload, value })
    } else {
        None
    }
}

/// One turn of the block oracle: the oracle takes in the block, and the
/// balance is checked against the high-water mark.
pub fn block_oracle_tick(oracle: &mut BlockOracle, state: &BotState, block: &BlockHeader) -> (r:
    Option<RecoverWethCall>)
    requires
        block.predictable(),
    ensures
        final(oracle).latest_block.number == block.number,
        final(oracle).latest_block.timestamp == block.timestamp,
        final(oracle).latest_block.base_fee == block.base_fee_per_gas,
        final(oracle).next_block.follows(*block),
        r is Some <==> state.weth_balance@ > WETH_BALANCE_HIGH_WATER,
        r is Some ==> r->0.payload@ == be_bytes(RECOVER_WETH_JUMP_LABEL as nat, 1),
        r is Some ==> r->0.value@ == RECOVER_AMOUNT as nat / weth_encode_divisor(),
{
    oracle.on_new_block(block);
    recover_weth_if_needed(state.weth_balance)
}

/// A range of blocks to search for new pools.
#[derive(Clone, Copy, Debug, PartialEq, Eq)]
pub struct SyncRange {
    pub from_block: u64,
    pub to_block: u64,
}

/// Counts blocks between two searches for new pools.
#[derive(Clone, Copy, Debug)]
pub struct NewPoolsSchedule {
    /// The blocks seen since the last search.
    pub counter: u64,
    /// The block up to which pools are known.
    pub current_block_num: u64,
    /// The number of blocks after which to search again.
    pub interval: u64,
}

impl NewPoolsSchedule {
    /// A schedule that starts counting now, with pools known up to
    /// `current_block_num`.
    pub fn new(current_block_num: u64, interval: u64) -> (r: Self)
        ensures
            r.counter == 0,
            r.current_block_num == current_block_num,
            r.interval == interval,
    {
        NewPoolsSchedule { counter: 0, current_block_num, interval }
    }

    /// Counts the block in. With the block that completes the interval the
    /// search is due, from the block up to which pools are known to the block
    /// that came; the count starts over and the pools count as known up to that
    /// block.
    pub fn on_new_block(&mut self, latest_block_number: u64) -> (r: Option<SyncRange>)
        requires
            old(self).counter < u64::MAX,
        ensures
            final(self).interval == old(self).interval,
            r is Some <==> old(self).counter + 1 == old(self).interval,
            r is Some ==> r->0 == (SyncRange {
                from_block: old(self).current_block_num,
                to_block: latest_block_number,
            }),
            r is Some ==> final(self).counter == 0 && final(self).current_block_num
                == latest_block_number,
            r is None ==> final(self).counter == old(self).counter + 1
                && final(self).current_block_num == old(self).current_block_num,
    {
        self.counter += 1;

        if self.counter == self.interval {
            let range = SyncRange {
                from_block: self.current_block_num,
                to_block: latest_block_number,
            };
            self.counter = 0;
            self.current_block_num = latest_block_number;
            Some(range)
        } else {
            None
        }
    }
}

/// What the owner of the aggregation window is to do next.
#[derive(Clone, Copy, Debug)]
pub enum CycleAction {
    /// Wait for the window of the block to pass, then report it.
    Wait { block_number: u64, millis: u64 },
    /// Make the mega sandwich for the block that is predicted.
    Build { next_block: BlockInfo },
    /// The window that passed belongs to a block that is no longer the latest.
    Skip,
}

/// The aggregation window of the block in flight.
#[derive(Clone, Copy, Debug)]
pub struct MegaSandwichCycle {
    /// The block whose window is open.
    pub window: Option<BlockHeader>,
    /// The length of a window in milliseconds.
    pub delay_millis: u64,
}

impl MegaSandwichCycle {
    /// A block whose window is open is one whose successor can be predicted.
    pub open spec fn wf(&self) -> bool {
        self.window is Some ==> self.window->0.predictable()
    }

    /// A cycle with no window open.
    pub fn new(delay_millis: u64) -> (r: Self)
        ensures
            r.wf(),
            r.window is None,
            r.delay_millis == delay_millis,
    {
        MegaSandwichCycle { window: None, delay_millis }
    }

    /// A block came: what was pending for the block before is dropped, a
    /// window that was still open is given up, and the window of `block` opens.
    pub fn on_new_block(&mut self, block: BlockHeader, bundle_sender: &mut BundleSender) -> (r:
        CycleAction)
        requires
            block.predictable(),
        ensures
            final(self).wf(),
            final(self).window == Some(block),
            final(self).delay_millis == old(self).delay_millis,
            final(bundle_sender).pending_sandwiches@.len() == 0,
            final(bundle_sender).wf(),
            r == (CycleAction::Wait {
                block_number: block.number,
                millis: old(self).delay_millis,
            }),
    {
        bundle_sender.clear_pending();
        self.window = Some(block);
        CycleAction::Wait { block_number: block.number, millis: self.delay_millis }
    }

    /// The window of block `block_number` has passed. Where that block is
    /// still the one in flight, the window closes and the mega sandwich is due
    /// for the block predicted to follow; a window of an earlier block is
    /// passed over.
    pub fn on_window_elapsed(&mut self, block_number: u64) -> (r: CycleAction)
        requires
            old(self).wf(),
        ensures
            final(self).wf(),
            final(self).delay_millis == old(self).delay_millis,
            old(self).window is Some && old(self).window->0.number == block_number ==> {
                &&& r is Build
                &&& r->next_block.follows(old(self).window->0)
                &&& final(self).window is None
            },
            !(old(self).window is Some && old(self).window->0.number == block_number) ==> {
                &&& r is Skip
                &&& final(self).window == old(self).window
            },
    {
        match self.window {
            Some(block) => {
                if block.number == block_number {
                    self.window = None;
                    CycleAction::Build { next_block: BlockInfo::find_next_block_info(&block) }
                } else {
                    CycleAction::Skip
                }
            },
            None => CycleAction::Skip,
        }
    }
}

} // verus!
