//! The state that the tasks share.

use vstd::prelude::*;
use crate::types::uint::U256;

verus! {

/// What the searcher knows of its contract.
#[derive(Clone, Copy, Debug)]
pub struct BotState {
    /// The base-asset balance of the contract.
    pub weth_balance: U256,
}

impl BotState {
    /// The state of a contract with the given balance.
    pub fn new(weth_balance: U256) -> (r: Self)
        ensures
            r.weth_balance == weth_balance,
    {
        BotState { weth_balance }
    }

    /// Replaces the balance by one that was read from the chain.
    pub fn update_weth_balance(&mut self, weth_balance: U256)
        ensures
            final(self).weth_balance == weth_balance,
    {
        self.weth_balance = weth_balance;
    }
}

} // verus!
