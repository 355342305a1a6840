use vstd::prelude::*;

use crate::bet::Bet;
use crate::bet::BetType;
use crate::bet::MAX_OUTCOME;
use crate::bet::payout_of;
use crate::error::MagicRouletteError;
use crate::identity::Identity;
use crate::round::Round;
use crate::table::Table;
use crate::table::Vault;
use crate::vrf::range_sample;

verus! {

/// The pending-request token a spin hands to the randomness oracle: it names
/// the round the single callback may resolve, and carries the caller-chosen
/// seed derived from that round's number.
#[derive(Clone, Copy, Debug, PartialEq, Eq)]
pub struct SpinRequest {
    /// The round the oracle's callback is scoped to.
    pub round_number: u64,
    /// Caller-chosen seed forwarded with the randomness request.
    pub caller_seed: [u8; 32],
}

/// Creates the table with its configuration and opens round 1, whose betting
/// window closes `round_period_ts` after `now`.
pub fn initialize_table(
    admin: Identity,
    minimum_bet_amount: u64,
    round_period_ts: u64,
    now: i64,
) -> (r: Result<(Table, Round), MagicRouletteError>)
    ensures
        minimum_bet_amount == 0 ==> r == Err::<(Table, Round), MagicRouletteError>(
            MagicRouletteError::InvalidMinimumBetAmount,
        ),
        minimum_bet_amount > 0 && round_period_ts == 0 ==> r == Err::<
            (Table, Round),
            MagicRouletteError,
        >(MagicRouletteError::InvalidRoundPeriod),
        minimum_bet_amount > 0 && round_period_ts > 0 && now + round_period_ts > i64::MAX ==> r
            == Err::<(Table, Round), MagicRouletteError>(MagicRouletteError::MathOverflow),
        minimum_bet_amount > 0 && round_period_ts > 0 && now + round_period_ts <= i64::MAX ==> r
            == Ok::<(Table, Round), MagicRouletteError>(
            (
                Table {
                    admin,
                    minimum_bet_amount,
                    round_period_ts,
                    current_round_number: 1,
                    next_round_ts: (now + round_period_ts) as i64,
                },
                Round { round_number: 1, pool_amount: 0, is_spun: false, outcome: None },
            ),
        ),
        r matches Ok(p) ==> p.0.well_formed() && p.1.well_formed(),
{
    if minimum_bet_amount == 0 {
        return Err(MagicRouletteError::InvalidMinimumBetAmount);
    }
    if round_period_ts == 0 {
        return Err(MagicRouletteError::InvalidRoundPeriod);
    }
    let next_round_ts = match now.checked_add_unsigned(round_period_ts) {
        Some(ts) => ts,
        None => {
            return Err(MagicRouletteError::MathOverflow);
        },
    };
    let table = Table {
        admin,
        minimum_bet_amount,
        round_period_ts,
        current_round_number: 1,
        next_round_ts,
    };
    let round = Round::new(1);
    Ok((table, round))
}

/// Admin-only reconfiguration: applies exactly the fields supplied, after
/// validating all of them, so a rejected update changes nothing.
pub fn update_table(
    table: &mut Table,
    caller: Identity,
    minimum_bet_amount: Option<u64>,
    round_period_ts: Option<u64>,
    new_admin: Option<Identity>,
) -> (r: Result<(), MagicRouletteError>)
    requires
        old(table).well_formed(),
    ensures
        final(table).well_formed(),
        caller != old(table).admin ==> r == Err::<(), MagicRouletteError>(
            MagicRouletteError::UnauthorizedAdmin,
        ) && *final(table) == *old(table),
        caller == old(table).admin && minimum_bet_amount == Some(0u64) ==> r == Err::<
            (),
            MagicRouletteError,
        >(MagicRouletteError::InvalidMinimumBetAmount) && *final(table) == *old(table),
        caller == old(table).admin && minimum_bet_amount != Some(0u64) && round_period_ts == Some(
            0u64,
        ) ==> r == Err::<(), MagicRouletteError>(MagicRouletteError::InvalidRoundPeriod)
            && *final(table) == *old(table),
        caller == old(table).admin && minimum_bet_amount != Some(0u64) && round_period_ts != Some(
            0u64,
        ) && (new_admin matches Some(a) && a.spec_is_null()) ==> r == Err::<
            (),
            MagicRouletteError,
        >(MagicRouletteError::InvalidAddress) && *final(table) == *old(table),
        caller == old(table).admin && minimum_bet_amount != Some(0u64) && round_period_ts != Some(
            0u64,
        ) && !(new_admin matches Some(a) && a.spec_is_null()) ==> r == Ok::<
            (),
            MagicRouletteError,
        >(()) && *final(table) == (Table {
            admin: if new_admin is Some {
                new_admin->0
            } else {
                old(table).admin
            },
            minimum_bet_amount: if minimum_bet_amount is Some {
                minimum_bet_amount->0
            } else {
                old(table).minimum_bet_amount
            },
            round_period_ts: if round_period_ts is Some {
                round_period_ts->0
            } else {
                old(table).round_period_ts
            },
            ..*old(table)
        }),
{
    if !caller.equals(&table.admin) {
        return Err(MagicRouletteError::UnauthorizedAdmin);
    }
    if let Some(m) = minimum_bet_amount {
        if m == 0 {
            return Err(MagicRouletteError::InvalidMinimumBetAmount);
        }
    }
    if let Some(p) = round_period_ts {
        if p == 0 {
            return Err(MagicRouletteError::InvalidRoundPeriod);
        }
    }
    if let Some(a) = new_admin {
        if a.is_null() {
            return Err(MagicRouletteError::InvalidAddress);
        }
    }
    if let Some(m) = minimum_bet_amount {
        table.minimum_bet_amount = m;
    }
    if let Some(p) = round_period_ts {
        table.round_period_ts = p;
    }
    if let Some(a) = new_admin {
        table.admin = a;
    }
    Ok(())
}

/// The first reason a placement must be rejected, if any: the checks run in
/// this order, and a rejected placement changes nothing.
pub open spec fn place_bet_error(
    table: Table,
    round: Round,
    vault: Vault,
    bet_type: BetType,
    bet_amount: u64,
    now: i64,
) -> Option<MagicRouletteError> {
    if round.round_number != table.current_round_number {
        Some(MagicRouletteError::InvalidRound)
    } else if bet_amount < table.minimum_bet_amount {
        Some(MagicRouletteError::InvalidBetAmount)
    } else if now >= table.next_round_ts || round.is_spun {
        Some(MagicRouletteError::RoundOver)
    } else if !bet_type.spec_valid() {
        Some(MagicRouletteError::InvalidBetType)
    } else if round.pool_amount + bet_amount > u64::MAX {
        Some(MagicRouletteError::MathOverflow)
    } else if vault.balance + bet_amount > u64::MAX {
        Some(MagicRouletteError::MathOverflow)
    } else {
        None
    }
}

/// Escrows `bet_amount` into the vault and records the wager against the
/// active round. Only legal shapes, stakes at or above the table minimum,
/// and rounds that are neither spun nor past their deadline are accepted.
pub fn place_bet(
    table: &Table,
    round: &mut Round,
    vault: &mut Vault,
    player: Identity,
    bet_type: BetType,
    bet_amount: u64,
    now: i64,
) -> (r: Result<Bet, MagicRouletteError>)
    requires
        table.well_formed(),
        old(round).well_formed(),
    ensures
        final(round).well_formed(),
        place_bet_error(*table, *old(round), *old(vault), bet_type, bet_amount, now) matches Some(
            e,
        ) ==> r == Err::<Bet, MagicRouletteError>(e) && *final(round) == *old(round)
            && *final(vault) == *old(vault),
        place_bet_error(*table, *old(round), *old(vault), bet_type, bet_amount, now) is None ==> r
            == Ok::<Bet, MagicRouletteError>(
            (Bet {
                player,
                round_number: table.current_round_number,
                amount: bet_amount,
                is_claimed: false,
                bet_type,
            }),
        ) && *final(round) == (Round {
            pool_amount: (old(round).pool_amount + bet_amount) as u64,
            ..*old(round)
        }) && final(vault).balance == old(vault).balance + bet_amount,
{
    if round.round_number != table.current_round_number {
        return Err(MagicRouletteError::InvalidRound);
    }
    if bet_amount < table.minimum_bet_amount {
        return Err(MagicRouletteError::InvalidBetAmount);
    }
    if now >= table.next_round_ts || round.is_spun {
        return Err(MagicRouletteError::RoundOver);
    }
    if !bet_type.is_valid() {
        return Err(MagicRouletteError::InvalidBetType);
    }
    let new_pool = match round.pool_amount.checked_add(bet_amount) {
        Some(p) => p,
        None => {
            return Err(MagicRouletteError::MathOverflow);
        },
    };
    let new_balance = match vault.balance.checked_add(bet_amount) {
        Some(b) => b,
        None => {
            return Err(MagicRouletteError::MathOverflow);
        },
    };
    round.pool_amount = new_pool;
    vault.balance = new_balance;
    Ok(
        Bet {
            player,
            round_number: table.current_round_number,
            amount: bet_amount,
            is_claimed: false,
            bet_type,
        },
    )
}

/// The first reason a spin must be rejected, if any. Only the deadline check
/// is time-gated; everything else guards the one-active-round invariant.
pub open spec fn spin_error(table: Table, round: Round, now: i64) -> Option<MagicRouletteError> {
    if round.round_number != table.current_round_number || round.is_spun {
        Some(MagicRouletteError::InvalidRound)
    } else if now < table.next_round_ts {
        Some(MagicRouletteError::RoundNotReadyToSpin)
    } else if table.current_round_number == u64::MAX {
        Some(MagicRouletteError::MathOverflow)
    } else {
        None
    }
}

/// Locks the active round once its deadline has passed, opens the next
/// round's record, and returns the request token the oracle needs. The
/// table's cursor moves only when the callback later resolves the round.
pub fn spin_roulette(table: &Table, current_round: &mut Round, now: i64) -> (r: Result<
    (Round, SpinRequest),
    MagicRouletteError,
>)
    requires
        table.well_formed(),
        old(current_round).well_formed(),
    ensures
        final(current_round).well_formed(),
        spin_error(*table, *old(current_round), now) matches Some(e) ==> r == Err::<
            (Round, SpinRequest),
            MagicRouletteError,
        >(e) && *final(current_round) == *old(current_round),
        spin_error(*table, *old(current_round), now) is None ==> *final(current_round) == (Round {
            is_spun: true,
            ..*old(current_round)
        }) && (r matches Ok(p) && p.0 == (Round {
            round_number: (table.current_round_number + 1) as u64,
            pool_amount: 0,
            is_spun: false,
            outcome: None,
        }) && p.1.round_number == table.current_round_number && (forall|i: int|
            0 <= i < 32 ==> p.1.caller_seed@[i] == table.current_round_number as u8)),
{
    if current_round.round_number != table.current_round_number || current_round.is_spun {
        return Err(MagicRouletteError::InvalidRound);
    }
    if now < table.next_round_ts {
        return Err(MagicRouletteError::RoundNotReadyToSpin);
    }
    let next_number = match table.current_round_number.checked_add(1) {
        Some(n) => n,
        None => {
            return Err(MagicRouletteError::MathOverflow);
        },
    };
    current_round.is_spun = true;
    let new_round = Round::new(next_number);
    let seed_byte = #[verifier::truncate] (table.current_round_number as u8);
    let request = SpinRequest { round_number: table.current_round_number, caller_seed: [seed_byte; 32] };
    Ok((new_round, request))
}

/// A resolved table: the cursor advanced by one and the next betting window
/// opened. Meaningful when the round number and deadline do not overflow.
pub open spec fn table_after_resolve(t: Table, now: i64) -> Table {
    Table {
        current_round_number: (t.current_round_number + 1) as u64,
        next_round_ts: (now + t.round_period_ts) as i64,
        ..t
    }
}

/// The first reason a randomness delivery must be rejected, if any. A
/// delivery that names any round but the table's current one — in
/// particular, a replay against an already resolved round — is rejected.
pub open spec fn advance_error(
    table: Table,
    round: Round,
    round_number: u64,
    now: i64,
) -> Option<MagicRouletteError> {
    if round_number != table.current_round_number || round.round_number != table.current_round_number
        || !round.is_spun || round.outcome is Some {
        Some(MagicRouletteError::InvalidRound)
    } else if table.current_round_number == u64::MAX || now + table.round_period_ts > i64::MAX {
        Some(MagicRouletteError::MathOverflow)
    } else {
        None
    }
}

/// The oracle's one callback: fixes the named round's outcome from the
/// delivered randomness, advances the table's cursor by exactly 1, and sets
/// the next round's deadline to `now` plus the round period.
pub fn advance_round(
    table: &mut Table,
    current_round: &mut Round,
    round_number: u64,
    randomness: &[u8; 32],
    now: i64,
) -> (r: Result<u8, MagicRouletteError>)
    requires
        old(table).well_formed(),
        old(current_round).well_formed(),
    ensures
        final(table).well_formed(),
        final(current_round).well_formed(),
        advance_error(*old(table), *old(current_round), round_number, now) matches Some(e) ==> r
            == Err::<u8, MagicRouletteError>(e) && *final(table) == *old(table)
            && *final(current_round) == *old(current_round),
        advance_error(*old(table), *old(current_round), round_number, now) is None ==> r == Ok::<
            u8,
            MagicRouletteError,
        >(range_sample(randomness@, 0, MAX_OUTCOME)) && *final(current_round) == (Round {
            outcome: Some(range_sample(randomness@, 0, MAX_OUTCOME)),
            ..*old(current_round)
        }) && *final(table) == table_after_resolve(*old(table), now),
        r matches Ok(o) ==> o <= MAX_OUTCOME && final(table).current_round_number
            == old(table).current_round_number + 1,
{
    if round_number != table.current_round_number
        || current_round.round_number != table.current_round_number || !current_round.is_spun
        || current_round.outcome.is_some() {
        return Err(MagicRouletteError::InvalidRound);
    }
    let next_number = match table.current_round_number.checked_add(1) {
        Some(n) => n,
        None => {
            return Err(MagicRouletteError::MathOverflow);
        },
    };
    let next_round_ts = match now.checked_add_unsigned(table.round_period_ts) {
        Some(ts) => ts,
        None => {
            return Err(MagicRouletteError::MathOverflow);
        },
    };
    let outcome = ephemeral_vrf_sdk::rnd::random_u8_with_range(randomness, 0, MAX_OUTCOME);
    current_round.outcome = Some(outcome);
    table.current_round_number = next_number;
    table.next_round_ts = next_round_ts;
    Ok(outcome)
}

/// The first reason a claim must be rejected, if any: the checks run in this
/// order, each with its own signal, and a rejected claim changes nothing.
pub open spec fn claim_error(
    round: Round,
    bet: Bet,
    vault: Vault,
    caller: Identity,
) -> Option<MagicRouletteError> {
    if round.outcome is None {
        Some(MagicRouletteError::RoundAwaitingOutcome)
    } else if bet.round_number != round.round_number {
        Some(MagicRouletteError::InvalidBet)
    } else if bet.player != caller {
        Some(MagicRouletteError::InvalidPlayer)
    } else if bet.is_claimed {
        Some(MagicRouletteError::WinningsAlreadyClaimed)
    } else if !bet.bet_type.spec_wins(round.outcome->0) {
        Some(MagicRouletteError::BetNotWinning)
    } else if payout_of(bet.amount, bet.bet_type) > u64::MAX {
        Some(MagicRouletteError::MathOverflow)
    } else if vault.balance < payout_of(bet.amount, bet.bet_type) {
        Some(MagicRouletteError::InsufficientVaultFunds)
    } else {
        None
    }
}

/// What one claim attempt does, as one atomic step: the result, the bet as
/// it is left, and the vault as it is left.
pub open spec fn claim_transition(round: Round, bet: Bet, vault: Vault, caller: Identity) -> (
    Result<u64, MagicRouletteError>,
    Bet,
    Vault,
) {
    match claim_error(round, bet, vault, caller) {
        Some(e) => (Err(e), bet, vault),
        None => (
            Ok(payout_of(bet.amount, bet.bet_type) as u64),
            Bet { is_claimed: true, ..bet },
            Vault { balance: (vault.balance - payout_of(bet.amount, bet.bet_type)) as u64 },
        ),
    }
}

/// Pays a winning bet exactly once: checks the round is resolved, the bet
/// matches the round and caller and is unclaimed and winning, computes the
/// payout with checked arithmetic, and debits the vault only if it covers
/// the payout — marking the bet claimed in the same atomic step.
pub fn claim_winnings(round: &Round, bet: &mut Bet, vault: &mut Vault, caller: Identity) -> (r:
    Result<u64, MagicRouletteError>)
    requires
        round.well_formed(),
    ensures
        (r, *final(bet), *final(vault)) == claim_transition(*round, *old(bet), *old(vault), caller),
        r matches Ok(p) ==> p == payout_of(old(bet).amount, old(bet).bet_type)
            && p <= old(vault).balance && final(vault).balance == old(vault).balance - p
            && final(bet).is_claimed,
        r is Err ==> *final(bet) == *old(bet) && *final(vault) == *old(vault),
{
    let outcome = match round.outcome {
        Some(o) => o,
        None => {
            return Err(MagicRouletteError::RoundAwaitingOutcome);
        },
    };
    if bet.round_number != round.round_number {
        return Err(MagicRouletteError::InvalidBet);
    }
    if !bet.player.equals(&caller) {
        return Err(MagicRouletteError::InvalidPlayer);
    }
    if bet.is_claimed {
        return Err(MagicRouletteError::WinningsAlreadyClaimed);
    }
    if !bet.bet_type.is_winner(outcome) {
        return Err(MagicRouletteError::BetNotWinning);
    }
    let multiplier = bet.bet_type.payout_multiplier();
    let winnings = match bet.amount.checked_mul(multiplier as u64) {
        Some(w) => w,
        None => {
            return Err(MagicRouletteError::MathOverflow);
        },
    };
    let bet_payout = match winnings.checked_add(bet.amount) {
        Some(p) => p,
        None => {
            return Err(MagicRouletteError::MathOverflow);
        },
    };
    if vault.balance < bet_payout {
        return Err(MagicRouletteError::InsufficientVaultFunds);
    }
    vault.balance = vault.balance - bet_payout;
    bet.is_claimed = true;
    Ok(bet_payout)
}

/// The balance the admin may take out: whatever exceeds the reserve floor,
/// clamped to zero rather than failing when the vault sits below the floor.
pub open spec fn withdrawable_of(vault: Vault, reserve_floor: u64) -> int {
    if vault.balance >= reserve_floor {
        vault.balance - reserve_floor
    } else {
        0
    }
}

/// Admin-only withdrawal of the vault's surplus over the reserve floor; an
/// explicit amount beyond that ceiling is rejected, and no amount means all
/// of it.
pub fn withdraw_vault(
    table: &Table,
    vault: &mut Vault,
    caller: Identity,
    amount: Option<u64>,
    reserve_floor: u64,
) -> (r: Result<u64, MagicRouletteError>)
    requires
        table.well_formed(),
    ensures
        caller != table.admin ==> r == Err::<u64, MagicRouletteError>(
            MagicRouletteError::UnauthorizedAdmin,
        ) && *final(vault) == *old(vault),
        caller == table.admin ==> match amount {
            Some(a) => if a > withdrawable_of(*old(vault), reserve_floor) {
                r == Err::<u64, MagicRouletteError>(MagicRouletteError::VaultNotWithdrawable)
                    && *final(vault) == *old(vault)
            } else {
                r == Ok::<u64, MagicRouletteError>(a) && final(vault).balance == old(
                    vault,
                ).balance - a
            },
            None => r == Ok::<u64, MagicRouletteError>(
                withdrawable_of(*old(vault), reserve_floor) as u64,
            ) && final(vault).balance == old(vault).balance - withdrawable_of(
                *old(vault),
                reserve_floor,
            ),
        },
{
    if !caller.equals(&table.admin) {
        return Err(MagicRouletteError::UnauthorizedAdmin);
    }
    let withdrawable = if vault.balance >= reserve_floor {
        vault.balance - reserve_floor
    } else {
        0
    };
    let taken = match amount {
        Some(a) => {
            if a > withdrawable {
                return Err(MagicRouletteError::VaultNotWithdrawable);
            }
            a
        },
        None => withdrawable,
    };
    vault.balance = vault.balance - taken;
    Ok(taken)
}

} // verus!
