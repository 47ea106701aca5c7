//! Decisions of the mining loop: mine one block at a time to an address until
//! the wallet's balance is positive. The caller mines the block, reads the
//! balance and hands it back.
use vstd::prelude::*;

verus! {

/// Where the mining loop stands.
pub struct MiningProgress {
    pub blocks_mined: u64,
    pub balance_sat: u64,
}

/// What the mining loop asks for next.
pub enum MiningAction {
    /// Mine one more block to the address, then record the new balance.
    MineBlock,
    /// The balance is positive: stop with these figures.
    Done { blocks_mined: u64, balance_sat: u64 },
}

/// The loop stops exactly when the balance is positive.
pub open spec fn is_done(p: MiningProgress) -> bool {
    p.balance_sat > 0
}

/// On a chain where a block's reward of `reward` satoshis can be spent once
/// `maturity` more blocks stand on it, the balance after `n` blocks of which
/// each pays `reward` to the wallet.
pub open spec fn matured_balance(maturity: nat, reward: nat, n: nat) -> nat {
    if n > maturity {
        ((n - maturity) * reward) as nat
    } else {
        0
    }
}

/// The action that the loop takes at progress `p`.
pub open spec fn action_spec(p: MiningProgress) -> MiningAction {
    if is_done(p) {
        MiningAction::Done { blocks_mined: p.blocks_mined, balance_sat: p.balance_sat }
    } else {
        MiningAction::MineBlock
    }
}

impl MiningProgress {
    /// No block mined, nothing spendable yet.
    pub fn new() -> (p: MiningProgress)
        ensures
            p.blocks_mined == 0,
            p.balance_sat == 0,
    {
        MiningProgress { blocks_mined: 0, balance_sat: 0 }
    }

    /// The next step: another block while the balance is not positive, else
    /// the end, with the number of blocks mined and the final balance.
    pub fn next_action(&self) -> (a: MiningAction)
        ensures
            a == action_spec(*self),
    {
        if self.balance_sat > 0 {
            MiningAction::Done { blocks_mined: self.blocks_mined, balance_sat: self.balance_sat }
        } else {
            MiningAction::MineBlock
        }
    }

    /// Records one more mined block and the balance read after it.
    pub fn record_block(&mut self, balance_sat: u64)
        requires
            old(self).blocks_mined < u64::MAX,
        ensures
            final(self).blocks_mined == old(self).blocks_mined + 1,
            final(self).balance_sat == balance_sat,
    {
        self.blocks_mined = self.blocks_mined + 1;
        self.balance_sat = balance_sat;
    }
}

/// The loop never ends on a balance that is not positive: at any progress,
/// the action is `Done` exactly when the balance is positive, and a `Done`
/// carries that positive balance.
pub proof fn lemma_done_has_positive_balance(p: MiningProgress)
    ensures
        action_spec(p) is Done <==> p.balance_sat > 0,
        action_spec(p) is Done ==> action_spec(p)->balance_sat > 0,
        action_spec(p) is Done ==> action_spec(p)->balance_sat == p.balance_sat,
{
}

/// With a maturity depth `maturity` and a positive reward per block, the loop
/// goes on through the first `maturity` blocks, where the balance is zero, and
/// stops after block `maturity + 1`, where it is positive.
pub proof fn lemma_maturity(maturity: nat, reward: nat, p: MiningProgress)
    requires
        reward > 0,
        p.balance_sat == matured_balance(maturity, reward, p.blocks_mined as nat),
    ensures
        is_done(p) <==> p.blocks_mined >= maturity + 1,
        p.blocks_mined <= maturity ==> p.balance_sat == 0,
{
    if p.blocks_mined > maturity {
        assert((p.blocks_mined - maturity) * reward > 0) by (nonlinear_arith)
            requires p.blocks_mined - maturity > 0, reward > 0;
    }
}

} // verus!
