use vstd::prelude::*;

use crate::bet::Bet;
use crate::bet::BetType;
use crate::error::MagicRouletteError;
use crate::identity::Identity;
use crate::lifecycle::claim_transition;
use crate::lifecycle::table_after_resolve;
use crate::round::Round;
use crate::table::Table;
use crate::table::Vault;

verus! {

/// A straight-up wager is legal for every pocket of the wheel, 0 through 37,
/// and for no number beyond them.
pub proof fn lemma_straight_up_validity(number: u8)
    ensures
        (BetType::StraightUp { number }).spec_valid() <==> number <= 37,
{
}

/// A wager wins an outcome exactly when the outcome is a member of the
/// wager's winning set.
pub proof fn lemma_winner_is_membership(bet_type: BetType, outcome: u8)
    ensures
        bet_type.spec_wins(outcome) <==> bet_type.winning_set().contains(outcome),
{
}

/// Red and black partition the 36 grid numbers: every pocket of 1..=36 is
/// exactly one of the two, and 0 and 00 are neither.
pub proof fn lemma_red_black_partition(outcome: u8)
    ensures
        !(BetType::is_red(outcome) && BetType::is_black(outcome)),
        (BetType::is_red(outcome) || BetType::is_black(outcome)) <==> 1 <= outcome <= 36,
{
}

/// Claims are idempotent in effect: once a claim has paid, a second claim of
/// the same bet fails with the already-claimed signal and leaves the bet and
/// the vault exactly as the first claim left them.
pub proof fn lemma_claim_idempotent(round: Round, bet: Bet, vault: Vault, caller: Identity)
    requires
        claim_transition(round, bet, vault, caller).0 is Ok,
    ensures
        ({
            let (r1, bet1, vault1) = claim_transition(round, bet, vault, caller);
            let (r2, bet2, vault2) = claim_transition(round, bet1, vault1, caller);
            r2 == Err::<u64, MagicRouletteError>(MagicRouletteError::WinningsAlreadyClaimed)
                && bet2 == bet1 && vault2 == vault1
        }),
{
}

/// Solvency: a claim pays only what the vault covers — a successful claim
/// debits exactly the payout, which the balance covered, and a failed claim
/// leaves the vault untouched.
pub proof fn lemma_claim_solvent(round: Round, bet: Bet, vault: Vault, caller: Identity)
    ensures
        ({
            let (r, bet1, vault1) = claim_transition(round, bet, vault, caller);
            &&& (r matches Ok(p) ==> p <= vault.balance && vault1.balance == vault.balance - p)
            &&& (r is Err ==> vault1 == vault)
        }),
{
}

/// The table after a run of resolved rounds, each cycle applying the
/// successor that `advance_round` establishes on success.
pub open spec fn table_after_cycles(t: Table, times: Seq<i64>) -> Table
    decreases times.len(),
{
    if times.len() == 0 {
        t
    } else {
        table_after_cycles(table_after_resolve(t, times[0]), times.subrange(1, times.len() as int))
    }
}

/// The round cursor is strictly monotonic: after N successful spin-resolve
/// cycles the round number is the initial one plus exactly N — none skipped,
/// none repeated.
pub proof fn lemma_round_number_monotonic(t: Table, times: Seq<i64>)
    requires
        t.current_round_number + times.len() <= u64::MAX,
    ensures
        table_after_cycles(t, times).current_round_number == t.current_round_number + times.len(),
    decreases times.len(),
{
    if times.len() > 0 {
        lemma_round_number_monotonic(
            table_after_resolve(t, times[0]),
            times.subrange(1, times.len() as int),
        );
    }
}

} // verus!
