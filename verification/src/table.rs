use vstd::prelude::*;

use crate::identity::Identity;

verus! {

/// Table-wide configuration and the cursor to the active round. There is one
/// table per deployment; all rounds before the current one are resolved.
#[derive(Clone, Copy, Debug, PartialEq, Eq)]
pub struct Table {
    /// Identity allowed to change the configuration and withdraw surplus.
    pub admin: Identity,
    /// Positive floor on wager size.
    pub minimum_bet_amount: u64,
    /// Positive duration between rounds.
    pub round_period_ts: u64,
    /// Number of the active round; starts at 1, advances by exactly 1 per
    /// resolved round.
    pub current_round_number: u64,
    /// Timestamp after which betting closes for the active round.
    pub next_round_ts: i64,
}

impl Table {
    pub open spec fn well_formed(self) -> bool {
        self.minimum_bet_amount > 0 && self.round_period_ts > 0 && self.current_round_number >= 1
    }
}

/// The custodial balance that escrows every stake and owes every payout.
/// All rounds share it; no debit may exceed the balance.
#[derive(Clone, Copy, Debug, PartialEq, Eq)]
pub struct Vault {
    pub balance: u64,
}

} // verus!
