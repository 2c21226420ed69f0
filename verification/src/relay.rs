//! Bundles as they go out to the relays, and the record of a fan-out.

use vstd::prelude::*;
use crate::types::block::BlockInfo;
use crate::types::uint::U256;

verus! {

/// One submission to a relay: signed transactions in order, with the block
/// they are meant for and the window of time in which they are valid.
#[derive(Debug)]
pub struct BundleRequest {
    pub transactions: Vec<Vec<u8>>,
    pub block: u64,
    pub simulation_block: u64,
    pub simulation_timestamp: u64,
    pub min_timestamp: u64,
    pub max_timestamp: u64,
}

/// Stamps the signed transactions for `target_block`: they are simulated on
/// the block before it, and are valid at `target_timestamp` and at no other
/// time.
pub fn construct_bundle(signed_txs: Vec<Vec<u8>>, target_block: u64, target_timestamp: u64) -> (r:
    BundleRequest)
    requires
        target_block >= 1,
    ensures
        r.transactions == signed_txs,
        r.block == target_block,
        r.simulation_block == target_block - 1,
        r.simulation_timestamp == target_timestamp,
        r.min_timestamp == target_timestamp,
        r.max_timestamp == target_timestamp,
{
    BundleRequest {
        transactions: signed_txs,
        block: target_block,
        simulation_block: target_block - 1,
        simulation_timestamp: target_timestamp,
        min_timestamp: target_timestamp,
        max_timestamp: target_timestamp,
    }
}

/// The bundle of the signed transactions for the block that is predicted:
/// meant for that block, simulated on the block before, and valid at that
/// block's predicted time only. There is none where the predicted block has no
/// block before it, or its time is no 64-bit number.
pub fn bundle_for_block(signed_txs: Vec<Vec<u8>>, next_block: &BlockInfo) -> (r: Option<
    BundleRequest,
>)
    ensures
        r is Some <==> next_block.number >= 1 && next_block.timestamp@ <= u64::MAX,
        r is Some ==> {
            &&& r->0.transactions == signed_txs
            &&& r->0.block == next_block.number
            &&& r->0.simulation_block == next_block.number - 1
            &&& r->0.simulation_timestamp == next_block.timestamp@
            &&& r->0.min_timestamp == next_block.timestamp@
            &&& r->0.max_timestamp == next_block.timestamp@
        },
{
    if next_block.number >= 1 && next_block.timestamp.le(&U256::from_u64(u64::MAX)) {
        Some(construct_bundle(signed_txs, next_block.number, next_block.timestamp.as_u64()))
    } else {
        None
    }
}

/// The number of `true` entries in `outcomes`.
pub open spec fn count_accepted(outcomes: Seq<bool>) -> nat
    decreases outcomes.len(),
{
    if outcomes.len() == 0 {
        0
    } else {
        count_accepted(outcomes.drop_last()) + (if outcomes.last() {
            1nat
        } else {
            0nat
        })
    }
}

/// The record of one bundle's way to the relays: every relay is tried, whatever
/// became of the relays before it.
#[derive(Debug)]
pub struct FanOut {
    relays: usize,
    outcomes: Vec<bool>,
}

impl FanOut {
    /// The number of relays that the bundle goes to.
    pub closed spec fn relays(&self) -> nat {
        self.relays as nat
    }

    /// What the relays tried so far answered, in the order of the relay set.
    pub closed spec fn outcomes(&self) -> Seq<bool> {
        self.outcomes@
    }

    /// No more relays were tried than there are.
    pub closed spec fn wf(&self) -> bool {
        self.outcomes@.len() <= self.relays
    }

    /// A fan-out to `relays` relays, none of them tried yet.
    pub fn new(relays: usize) -> (r: Self)
        ensures
            r.wf(),
            r.relays() == relays,
            r.outcomes() == Seq::<bool>::empty(),
    {
        FanOut { relays, outcomes: Vec::new() }
    }

    /// The relay to submit to next: the first that was not tried yet. A relay
    /// that failed does not stand in the way of those behind it.
    pub fn next_relay(&self) -> (r: Option<usize>)
        requires
            self.wf(),
        ensures
            r is Some <==> self.outcomes().len() < self.relays(),
            r is Some ==> r->0 == self.outcomes().len(),
    {
        if self.outcomes.len() < self.relays {
            Some(self.outcomes.len())
        } else {
            None
        }
    }

    /// Takes down what the relay that `next_relay` named answered.
    pub fn record(&mut self, accepted: bool)
        requires
            old(self).wf(),
            old(self).outcomes().len() < old(self).relays(),
        ensures
            final(self).wf(),
            final(self).relays() == old(self).relays(),
            final(self).outcomes() == old(self).outcomes().push(accepted),
    {
        self.outcomes.push(accepted);
    }

    /// The number of relays that took the bundle.
    pub fn delivered(&self) -> (r: usize)
        requires
            self.wf(),
        ensures
            r == count_accepted(self.outcomes()),
            r <= self.outcomes().len(),
    {
        let mut count: usize = 0;
        let mut i: usize = 0;
        while i < self.outcomes.len()
            invariant
                i <= self.outcomes@.len(),
                count == count_accepted(self.outcomes@.take(i as int)),
                count <= i,
            decreases self.outcomes@.len() - i,
        {
            proof {
                assert(self.outcomes@.take(i + 1).drop_last() =~= self.outcomes@.take(i as int));
            }
            if self.outcomes[i] {
                count += 1;
            }
            i += 1;
        }
        assert(self.outcomes@.take(self.outcomes@.len() as int) =~= self.outcomes@);
        count
    }

    /// The number of relays that were tried and did not take the bundle.
    pub fn failed(&self) -> (r: usize)
        requires
            self.wf(),
        ensures
            r == self.outcomes().len() - count_accepted(self.outcomes()),
    {
        self.outcomes.len() - self.delivered()
    }
}

} // verus!
