use vstd::prelude::*;

use crate::bet::MAX_OUTCOME;

verus! {

/// One spin cycle of the table. A round opens, accepts bets, is spun exactly
/// once, and is resolved by the single randomness callback.
#[derive(Clone, Copy, Debug, PartialEq, Eq)]
pub struct Round {
    /// Number of the round. Starts at 1 and increments by 1 per round.
    pub round_number: u64,
    /// Stake pooled from all bets placed against this round.
    pub pool_amount: u64,
    /// True once a randomness request has been issued for this round; no
    /// bets are accepted afterwards.
    pub is_spun: bool,
    /// The pocket the wheel landed on; absent until the randomness callback
    /// resolves the round, immutable afterwards.
    pub outcome: Option<u8>,
}

impl Round {
    /// An outcome exists only after the round was spun, and is a pocket.
    pub open spec fn well_formed(self) -> bool {
        self.outcome matches Some(o) ==> self.is_spun && o <= MAX_OUTCOME
    }

    /// A fresh round in its open state.
    pub fn new(round_number: u64) -> (r: Round)
        ensures
            r == (Round { round_number, pool_amount: 0, is_spun: false, outcome: None }),
            r.well_formed(),
    {
        Round { round_number, pool_amount: 0, is_spun: false, outcome: None }
    }
}

} // verus!
