use magic_roulette::Bet;
use magic_roulette::BetType;
use magic_roulette::Identity;
use magic_roulette::MagicRouletteError;
use magic_roulette::Round;
use magic_roulette::Table;
use magic_roulette::Vault;
use magic_roulette::lifecycle::advance_round;
use magic_roulette::lifecycle::claim_winnings;
use magic_roulette::lifecycle::initialize_table;
use magic_roulette::lifecycle::place_bet;
use magic_roulette::lifecycle::spin_roulette;
use magic_roulette::lifecycle::update_table;
use magic_roulette::lifecycle::withdraw_vault;

fn admin() -> Identity {
    Identity::new([1; 32])
}

fn player() -> Identity {
    Identity::new([2; 32])
}

fn fresh_table(now: i64) -> (Table, Round) {
    initialize_table(admin(), 10, 100, now).expect("valid configuration")
}

#[test]
fn initialize_table_opens_round_one() {
    let (table, round) = fresh_table(1_000);
    assert_eq!(table.admin, admin());
    assert_eq!(table.minimum_bet_amount, 10);
    assert_eq!(table.round_period_ts, 100);
    assert_eq!(table.current_round_number, 1);
    assert_eq!(table.next_round_ts, 1_100);
    assert_eq!(round.round_number, 1);
    assert_eq!(round.pool_amount, 0);
    assert!(!round.is_spun);
    assert_eq!(round.outcome, None);
}

#[test]
fn initialize_table_rejects_zero_configuration() {
    assert_eq!(
        initialize_table(admin(), 0, 100, 0),
        Err(MagicRouletteError::InvalidMinimumBetAmount)
    );
    assert_eq!(
        initialize_table(admin(), 10, 0, 0),
        Err(MagicRouletteError::InvalidRoundPeriod)
    );
}

#[test]
fn initialize_table_rejects_deadline_overflow() {
    assert_eq!(
        initialize_table(admin(), 10, 100, i64::MAX),
        Err(MagicRouletteError::MathOverflow)
    );
}

#[test]
fn update_table_applies_only_the_fields_supplied() {
    let (mut table, _) = fresh_table(1_000);
    let r = update_table(&mut table, admin(), Some(25), None, None);
    assert_eq!(r, Ok(()));
    assert_eq!(table.minimum_bet_amount, 25);
    assert_eq!(table.round_period_ts, 100);
    assert_eq!(table.admin, admin());

    let new_admin = Identity::new([9; 32]);
    let r = update_table(&mut table, admin(), None, Some(7), Some(new_admin));
    assert_eq!(r, Ok(()));
    assert_eq!(table.minimum_bet_amount, 25);
    assert_eq!(table.round_period_ts, 7);
    assert_eq!(table.admin, new_admin);
}

#[test]
fn update_table_rejects_non_admin_callers() {
    let (mut table, _) = fresh_table(1_000);
    let before = table;
    let r = update_table(&mut table, player(), Some(25), None, None);
    assert_eq!(r, Err(MagicRouletteError::UnauthorizedAdmin));
    assert_eq!(table, before);
}

#[test]
fn update_table_rejects_zero_fields_and_changes_nothing() {
    let (mut table, _) = fresh_table(1_000);
    let before = table;
    assert_eq!(
        update_table(&mut table, admin(), Some(0), Some(7), None),
        Err(MagicRouletteError::InvalidMinimumBetAmount)
    );
    assert_eq!(table, before);
    assert_eq!(
        update_table(&mut table, admin(), Some(25), Some(0), None),
        Err(MagicRouletteError::InvalidRoundPeriod)
    );
    assert_eq!(table, before);
}

#[test]
fn update_table_rejects_the_null_admin() {
    let (mut table, _) = fresh_table(1_000);
    let before = table;
    assert_eq!(
        update_table(&mut table, admin(), None, None, Some(Identity::new([0; 32]))),
        Err(MagicRouletteError::InvalidAddress)
    );
    assert_eq!(table, before);
}

#[test]
fn place_bet_escrows_the_stake() {
    let (table, mut round) = fresh_table(1_000);
    let mut vault = Vault { balance: 500 };
    let bet_type = BetType::Red;
    let bet = place_bet(&table, &mut round, &mut vault, player(), bet_type, 50, 1_050)
        .expect("placement is legal");
    assert_eq!(bet.player, player());
    assert_eq!(bet.round_number, 1);
    assert_eq!(bet.amount, 50);
    assert!(!bet.is_claimed);
    assert_eq!(bet.bet_type, bet_type);
    assert_eq!(round.pool_amount, 50);
    assert_eq!(vault.balance, 550);
}

#[test]
fn place_bet_rejects_stakes_below_the_minimum() {
    let (table, mut round) = fresh_table(1_000);
    let mut vault = Vault { balance: 0 };
    let r = place_bet(&table, &mut round, &mut vault, player(), BetType::Red, 9, 1_050);
    assert_eq!(r, Err(MagicRouletteError::InvalidBetAmount));
    assert_eq!(round.pool_amount, 0);
    assert_eq!(vault.balance, 0);
}

#[test]
fn place_bet_rejects_bets_after_the_deadline() {
    let (table, mut round) = fresh_table(1_000);
    let mut vault = Vault { balance: 0 };
    let r = place_bet(&table, &mut round, &mut vault, player(), BetType::Red, 50, 1_100);
    assert_eq!(r, Err(MagicRouletteError::RoundOver));
}

#[test]
fn place_bet_rejects_spun_rounds_before_their_deadline() {
    let (table, mut round) = fresh_table(1_000);
    let mut vault = Vault { balance: 0 };
    // the round was spun although its deadline has not technically passed
    round.is_spun = true;
    let r = place_bet(&table, &mut round, &mut vault, player(), BetType::Red, 50, 1_050);
    assert_eq!(r, Err(MagicRouletteError::RoundOver));
    assert_eq!(round.pool_amount, 0);
    assert_eq!(vault.balance, 0);
}

#[test]
fn place_bet_rejects_illegal_shapes() {
    let (table, mut round) = fresh_table(1_000);
    let mut vault = Vault { balance: 0 };
    let shape = BetType::Split { numbers: [5, 9] };
    let r = place_bet(&table, &mut round, &mut vault, player(), shape, 50, 1_050);
    assert_eq!(r, Err(MagicRouletteError::InvalidBetType));
}

#[test]
fn place_bet_rejects_a_round_that_is_not_the_active_one() {
    let (table, _) = fresh_table(1_000);
    let mut stale_round = Round::new(7);
    let mut vault = Vault { balance: 0 };
    let r = place_bet(&table, &mut stale_round, &mut vault, player(), BetType::Red, 50, 1_050);
    assert_eq!(r, Err(MagicRouletteError::InvalidRound));
}

#[test]
fn place_bet_rejects_pool_overflow() {
    let (table, mut round) = fresh_table(1_000);
    round.pool_amount = u64::MAX;
    let mut vault = Vault { balance: 0 };
    let r = place_bet(&table, &mut round, &mut vault, player(), BetType::Red, 50, 1_050);
    assert_eq!(r, Err(MagicRouletteError::MathOverflow));
    assert_eq!(round.pool_amount, u64::MAX);
    assert_eq!(vault.balance, 0);
}

#[test]
fn spin_rejects_before_the_deadline() {
    let (table, mut round) = fresh_table(1_000);
    // current time is one tick short of the deadline
    let r = spin_roulette(&table, &mut round, 1_099);
    assert_eq!(r, Err(MagicRouletteError::RoundNotReadyToSpin));
    assert!(!round.is_spun);
}

#[test]
fn spin_locks_the_round_and_opens_the_next() {
    let (table, mut round) = fresh_table(1_000);
    let (new_round, request) = spin_roulette(&table, &mut round, 1_100).expect("deadline passed");
    assert!(round.is_spun);
    assert_eq!(round.round_number, 1);
    assert_eq!(new_round.round_number, 2);
    assert!(!new_round.is_spun);
    assert_eq!(new_round.outcome, None);
    assert_eq!(request.round_number, 1);
    assert_eq!(request.caller_seed, [1; 32]);
}

#[test]
fn spin_rejects_an_already_spun_round() {
    let (table, mut round) = fresh_table(1_000);
    spin_roulette(&table, &mut round, 1_100).expect("first spin");
    let r = spin_roulette(&table, &mut round, 1_101);
    assert_eq!(r, Err(MagicRouletteError::InvalidRound));
}

#[test]
fn advance_round_resolves_and_moves_the_cursor() {
    let (mut table, mut round) = fresh_table(1_000);
    spin_roulette(&table, &mut round, 1_100).expect("spin");
    let outcome = advance_round(&mut table, &mut round, 1, &[0; 32], 1_105).expect("callback");
    assert!(outcome <= 37);
    assert_eq!(round.outcome, Some(outcome));
    assert!(round.is_spun);
    assert_eq!(table.current_round_number, 2);
    assert_eq!(table.next_round_ts, 1_205);
}

#[test]
fn advance_round_maps_the_randomness_not_the_seed() {
    // 200 < 228, the unbiased threshold for 38 pockets, so the scan from the
    // last byte settles on 200 % 38
    let (mut table, mut round) = fresh_table(1_000);
    spin_roulette(&table, &mut round, 1_100).expect("spin");
    let outcome = advance_round(&mut table, &mut round, 1, &[200; 32], 1_105).expect("callback");
    assert_eq!(outcome, 200 % 38);
}

#[test]
fn advance_round_is_deterministic_in_the_randomness() {
    let randomness = [123; 32];
    let mut outcomes = Vec::new();
    for _ in 0..2 {
        let (mut table, mut round) = fresh_table(1_000);
        spin_roulette(&table, &mut round, 1_100).expect("spin");
        let outcome =
            advance_round(&mut table, &mut round, 1, &randomness, 1_105).expect("callback");
        outcomes.push(outcome);
    }
    assert_eq!(outcomes[0], outcomes[1]);
}

#[test]
fn advance_round_rejects_a_mismatched_round() {
    let (mut table, mut round) = fresh_table(1_000);
    spin_roulette(&table, &mut round, 1_100).expect("spin");
    let r = advance_round(&mut table, &mut round, 2, &[0; 32], 1_105);
    assert_eq!(r, Err(MagicRouletteError::InvalidRound));
    assert_eq!(table.current_round_number, 1);
    assert_eq!(round.outcome, None);
}

#[test]
fn advance_round_rejects_replay_against_a_resolved_round() {
    let (mut table, mut round) = fresh_table(1_000);
    spin_roulette(&table, &mut round, 1_100).expect("spin");
    advance_round(&mut table, &mut round, 1, &[0; 32], 1_105).expect("first delivery");
    let resolved = round;
    let r = advance_round(&mut table, &mut round, 1, &[0; 32], 1_106);
    assert_eq!(r, Err(MagicRouletteError::InvalidRound));
    assert_eq!(round, resolved);
    assert_eq!(table.current_round_number, 2);
}

#[test]
fn advance_round_rejects_an_unspun_round() {
    let (mut table, mut round) = fresh_table(1_000);
    let r = advance_round(&mut table, &mut round, 1, &[0; 32], 1_105);
    assert_eq!(r, Err(MagicRouletteError::InvalidRound));
    assert_eq!(round.outcome, None);
}

#[test]
fn round_numbers_advance_by_one_per_cycle() {
    let (mut table, mut round) = fresh_table(0);
    for expected in 1..=5u64 {
        assert_eq!(table.current_round_number, expected);
        assert_eq!(round.round_number, expected);
        let deadline = table.next_round_ts;
        let (new_round, _) = spin_roulette(&table, &mut round, deadline).expect("spin");
        advance_round(&mut table, &mut round, expected, &[7; 32], deadline).expect("resolve");
        round = new_round;
    }
    assert_eq!(table.current_round_number, 6);
}

fn resolved_round(outcome: u8) -> Round {
    Round { round_number: 1, pool_amount: 100, is_spun: true, outcome: Some(outcome) }
}

#[test]
fn winning_split_pays_seventeen_to_one_plus_stake() {
    let round = resolved_round(5);
    let mut bet = Bet {
        player: player(),
        round_number: 1,
        amount: 100,
        is_claimed: false,
        bet_type: BetType::Split { numbers: [5, 6] },
    };
    let mut vault = Vault { balance: 10_000 };
    let payout = claim_winnings(&round, &mut bet, &mut vault, player()).expect("winning claim");
    assert_eq!(payout, 1_800);
    assert_eq!(vault.balance, 8_200);
    assert!(bet.is_claimed);
}

#[test]
fn winning_red_pays_even_money_plus_stake() {
    let round = resolved_round(32);
    let mut bet = Bet {
        player: player(),
        round_number: 1,
        amount: 50,
        is_claimed: false,
        bet_type: BetType::Red,
    };
    let mut vault = Vault { balance: 10_000 };
    let payout = claim_winnings(&round, &mut bet, &mut vault, player()).expect("winning claim");
    assert_eq!(payout, 100);
    assert_eq!(vault.balance, 9_900);
}

#[test]
fn second_claim_fails_and_leaves_the_vault_unchanged() {
    let round = resolved_round(5);
    let mut bet = Bet {
        player: player(),
        round_number: 1,
        amount: 100,
        is_claimed: false,
        bet_type: BetType::Split { numbers: [5, 6] },
    };
    let mut vault = Vault { balance: 10_000 };
    claim_winnings(&round, &mut bet, &mut vault, player()).expect("first claim");
    let balance_after_first = vault.balance;
    let r = claim_winnings(&round, &mut bet, &mut vault, player());
    assert_eq!(r, Err(MagicRouletteError::WinningsAlreadyClaimed));
    assert_eq!(vault.balance, balance_after_first);
    assert!(bet.is_claimed);
}

#[test]
fn claim_rejects_an_unresolved_round() {
    let round = Round { round_number: 1, pool_amount: 100, is_spun: true, outcome: None };
    let mut bet = Bet {
        player: player(),
        round_number: 1,
        amount: 100,
        is_claimed: false,
        bet_type: BetType::Red,
    };
    let mut vault = Vault { balance: 10_000 };
    let r = claim_winnings(&round, &mut bet, &mut vault, player());
    assert_eq!(r, Err(MagicRouletteError::RoundAwaitingOutcome));
}

#[test]
fn claim_rejects_a_bet_from_another_round() {
    let round = resolved_round(5);
    let mut bet = Bet {
        player: player(),
        round_number: 2,
        amount: 100,
        is_claimed: false,
        bet_type: BetType::Red,
    };
    let mut vault = Vault { balance: 10_000 };
    let r = claim_winnings(&round, &mut bet, &mut vault, player());
    assert_eq!(r, Err(MagicRouletteError::InvalidBet));
}

#[test]
fn claim_rejects_a_caller_who_is_not_the_player() {
    let round = resolved_round(5);
    let mut bet = Bet {
        player: player(),
        round_number: 1,
        amount: 100,
        is_claimed: false,
        bet_type: BetType::Split { numbers: [5, 6] },
    };
    let mut vault = Vault { balance: 10_000 };
    let r = claim_winnings(&round, &mut bet, &mut vault, admin());
    assert_eq!(r, Err(MagicRouletteError::InvalidPlayer));
    assert!(!bet.is_claimed);
}

#[test]
fn claim_rejects_a_losing_bet() {
    let round = resolved_round(7);
    let mut bet = Bet {
        player: player(),
        round_number: 1,
        amount: 100,
        is_claimed: false,
        bet_type: BetType::Split { numbers: [5, 6] },
    };
    let mut vault = Vault { balance: 10_000 };
    let r = claim_winnings(&round, &mut bet, &mut vault, player());
    assert_eq!(r, Err(MagicRouletteError::BetNotWinning));
    assert!(!bet.is_claimed);
}

#[test]
fn claim_rejects_a_payout_that_overflows() {
    let round = resolved_round(17);
    let mut bet = Bet {
        player: player(),
        round_number: 1,
        amount: u64::MAX,
        is_claimed: false,
        bet_type: BetType::StraightUp { number: 17 },
    };
    let mut vault = Vault { balance: u64::MAX };
    let r = claim_winnings(&round, &mut bet, &mut vault, player());
    assert_eq!(r, Err(MagicRouletteError::MathOverflow));
    assert!(!bet.is_claimed);
    assert_eq!(vault.balance, u64::MAX);
}

#[test]
fn claim_never_overdraws_the_vault() {
    let round = resolved_round(5);
    let mut bet = Bet {
        player: player(),
        round_number: 1,
        amount: 100,
        is_claimed: false,
        bet_type: BetType::Split { numbers: [5, 6] },
    };
    // the vault is one unit short of the 1800 payout
    let mut vault = Vault { balance: 1_799 };
    let r = claim_winnings(&round, &mut bet, &mut vault, player());
    assert_eq!(r, Err(MagicRouletteError::InsufficientVaultFunds));
    assert_eq!(vault.balance, 1_799);
    assert!(!bet.is_claimed);
}

#[test]
fn withdraw_vault_rejects_non_admin_callers() {
    let (table, _) = fresh_table(1_000);
    let mut vault = Vault { balance: 1_000 };
    let r = withdraw_vault(&table, &mut vault, player(), None, 100);
    assert_eq!(r, Err(MagicRouletteError::UnauthorizedAdmin));
    assert_eq!(vault.balance, 1_000);
}

#[test]
fn withdraw_vault_takes_at_most_the_surplus() {
    let (table, _) = fresh_table(1_000);
    let mut vault = Vault { balance: 1_000 };
    let r = withdraw_vault(&table, &mut vault, admin(), Some(901), 100);
    assert_eq!(r, Err(MagicRouletteError::VaultNotWithdrawable));
    assert_eq!(vault.balance, 1_000);
    let taken = withdraw_vault(&table, &mut vault, admin(), Some(900), 100).expect("at the cap");
    assert_eq!(taken, 900);
    assert_eq!(vault.balance, 100);
}

#[test]
fn withdraw_vault_without_an_amount_takes_the_whole_surplus() {
    let (table, _) = fresh_table(1_000);
    let mut vault = Vault { balance: 1_000 };
    let taken = withdraw_vault(&table, &mut vault, admin(), None, 100).expect("surplus");
    assert_eq!(taken, 900);
    assert_eq!(vault.balance, 100);
}

#[test]
fn withdraw_vault_below_the_floor_yields_nothing() {
    let (table, _) = fresh_table(1_000);
    let mut vault = Vault { balance: 50 };
    let taken = withdraw_vault(&table, &mut vault, admin(), None, 100).expect("clamped to zero");
    assert_eq!(taken, 0);
    assert_eq!(vault.balance, 50);
    let r = withdraw_vault(&table, &mut vault, admin(), Some(1), 100);
    assert_eq!(r, Err(MagicRouletteError::VaultNotWithdrawable));
}

#[test]
fn a_full_round_pays_the_winner_from_the_vault() {
    let (mut table, mut round) = fresh_table(1_000);
    let mut vault = Vault { balance: 100 };

    // randomness of all 1s maps to pocket 1, which is red
    let bet = place_bet(&table, &mut round, &mut vault, player(), BetType::Red, 50, 1_050)
        .expect("bet accepted");
    assert_eq!(vault.balance, 150);

    let (next_round, request) = spin_roulette(&table, &mut round, 1_100).expect("spin");
    let outcome = advance_round(&mut table, &mut round, request.round_number, &[1; 32], 1_100)
        .expect("resolve");
    assert_eq!(outcome, 1);
    assert_eq!(table.current_round_number, 2);
    assert_eq!(next_round.round_number, 2);

    let mut settled_bet = bet;
    let payout = claim_winnings(&round, &mut settled_bet, &mut vault, player()).expect("winner");
    assert_eq!(payout, 100);
    assert_eq!(vault.balance, 50);
    assert!(settled_bet.is_claimed);
}

#[test]
fn spin_rejects_a_round_counter_at_its_ceiling() {
    let table = Table {
        admin: admin(),
        minimum_bet_amount: 10,
        round_period_ts: 100,
        current_round_number: u64::MAX,
        next_round_ts: 1_100,
    };
    let mut round = Round::new(u64::MAX);
    let r = spin_roulette(&table, &mut round, 1_100);
    assert_eq!(r, Err(MagicRouletteError::MathOverflow));
    assert!(!round.is_spun);
}

#[test]
fn advance_round_rejects_a_deadline_that_overflows() {
    let mut table = Table {
        admin: admin(),
        minimum_bet_amount: 10,
        round_period_ts: 100,
        current_round_number: 1,
        next_round_ts: i64::MAX,
    };
    let mut round = Round::new(1);
    round.is_spun = true;
    let r = advance_round(&mut table, &mut round, 1, &[0; 32], i64::MAX - 1);
    assert_eq!(r, Err(MagicRouletteError::MathOverflow));
    assert_eq!(round.outcome, None);
    assert_eq!(table.current_round_number, 1);
}

#[test]
fn identities_differing_only_in_the_last_byte_are_distinct() {
    let mut bytes = [2; 32];
    bytes[31] = 3;
    let imposter = Identity::new(bytes);

    let round = resolved_round(32);
    let mut bet = Bet {
        player: player(),
        round_number: 1,
        amount: 50,
        is_claimed: false,
        bet_type: BetType::Red,
    };
    let mut vault = Vault { balance: 10_000 };
    let r = claim_winnings(&round, &mut bet, &mut vault, imposter);
    assert_eq!(r, Err(MagicRouletteError::InvalidPlayer));

    let (mut table, _) = fresh_table(1_000);
    let mut nearly_null = [0; 32];
    nearly_null[31] = 1;
    let r = update_table(&mut table, admin(), None, None, Some(Identity::new(nearly_null)));
    assert_eq!(r, Ok(()));
    assert_eq!(table.admin, Identity::new(nearly_null));
}
