//! The opportunities that wait for the block in flight, and the one list of
//! legs that is made of them.

use vstd::prelude::*;
use crate::types::block::BlockInfo;
use crate::types::uint::{modulus, U256};
use crate::utils::tx_builder::{SandwichLeg, SandwichMaker, SwapRequest};

verus! {

/// An opportunity: the swap that goes in front of the victim and the swap that
/// goes behind.
#[derive(Clone, Copy, Debug)]
pub struct PendingSandwich {
    pub frontrun: SwapRequest,
    pub backrun: SwapRequest,
}

impl PendingSandwich {
    /// Both swaps can be encoded.
    pub open spec fn wf(&self) -> bool {
        self.frontrun.wf() && self.backrun.wf()
    }
}

/// All legs of one block, in order, with the nonce and the block they are for.
#[derive(Debug)]
pub struct MegaSandwich {
    pub legs: Vec<SandwichLeg>,
    pub nonce: U256,
    pub target_block: BlockInfo,
}

/// Holds the opportunities found during the window of the block in flight.
#[derive(Debug)]
pub struct BundleSender {
    pub pending_sandwiches: Vec<PendingSandwich>,
}

/// Whether `legs` are the legs of `pending`, in order: for each opportunity
/// its front-run leg and then its back-run leg.
pub open spec fn legs_of(legs: Seq<SandwichLeg>, pending: Seq<PendingSandwich>) -> bool {
    &&& legs.len() == 2 * pending.len()
    &&& forall|i: int|
        0 <= i < pending.len() ==> {
            &&& (#[trigger] legs[2 * i]).payload@ == pending[i].frontrun.payload()
            &&& legs[2 * i].value@ == pending[i].frontrun.value()
            &&& legs[2 * i + 1].payload@ == pending[i].backrun.payload()
            &&& legs[2 * i + 1].value@ == pending[i].backrun.value()
        }
}

impl BundleSender {
    /// Every pending opportunity can be encoded.
    pub open spec fn wf(&self) -> bool {
        forall|i: int|
            0 <= i < self.pending_sandwiches@.len() ==> (#[trigger] self.pending_sandwiches@[i]).wf()
    }

    /// A sender with nothing pending.
    pub fn new() -> (r: Self)
        ensures
            r.wf(),
            r.pending_sandwiches@.len() == 0,
    {
        BundleSender { pending_sandwiches: Vec::new() }
    }

    /// Forgets the opportunities of the block before.
    pub fn clear_pending(&mut self)
        ensures
            final(self).pending_sandwiches@.len() == 0,
            final(self).wf(),
    {
        self.pending_sandwiches.clear();
    }

    /// Takes in an opportunity that was found during the window.
    pub fn add_pending(&mut self, sandwich: PendingSandwich)
        requires
            old(self).wf(),
            sandwich.wf(),
        ensures
            final(self).wf(),
            final(self).pending_sandwiches@ == old(self).pending_sandwiches@.push(sandwich),
    {
        self.pending_sandwiches.push(sandwich);
    }

    /// Closes the window: moves the searcher on to its next nonce, encodes
    /// every pending opportunity into its two legs, and hands all legs out as
    /// one list for `next_block`. Nothing stays pending.
    pub fn make_mega_sandwich(&mut self, next_block: BlockInfo, maker: &mut SandwichMaker) -> (r:
        MegaSandwich)
        requires
            old(self).wf(),
            old(maker).wf(),
            old(maker).nonce@ + 1 < modulus(),
        ensures
            legs_of(r.legs@, old(self).pending_sandwiches@),
            r.nonce@ == old(maker).nonce@ + 1,
            r.target_block == next_block,
            final(maker).nonce == r.nonce,
            final(maker).wf(),
            final(self).pending_sandwiches@.len() == 0,
            final(self).wf(),
    {
        maker.update_searcher_nonce();

        let mut legs: Vec<SandwichLeg> = Vec::new();
        let mut i: usize = 0;
        while i < self.pending_sandwiches.len()
            invariant
                i <= self.pending_sandwiches@.len(),
                self.wf(),
                maker.wf(),
                legs_of(legs@, self.pending_sandwiches@.take(i as int)),
            decreases self.pending_sandwiches@.len() - i,
        {
            let frontrun = maker.build_leg(&self.pending_sandwiches[i].frontrun);
            let backrun = maker.build_leg(&self.pending_sandwiches[i].backrun);
            legs.push(frontrun);
            legs.push(backrun);
            i += 1;
        }
        assert(self.pending_sandwiches@.take(i as int) =~= self.pending_sandwiches@);
        let nonce = maker.nonce;
        self.pending_sandwiches.clear();

        MegaSandwich { legs, nonce, target_block: next_block }
    }
}

} // verus!
