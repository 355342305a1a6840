use vstd::prelude::*;

verus! {

/// Every way an operation of the table can fail. Each operation's contract
/// says exactly which of these it returns, and when.
#[derive(Clone, Copy, Debug, PartialEq, Eq, Structural)]
pub enum MagicRouletteError {
    /// Stake below the table's minimum bet amount.
    InvalidBetAmount,
    /// Checked arithmetic overflowed.
    MathOverflow,
    /// The caller is not the player the bet belongs to.
    InvalidPlayer,
    /// The round named by the caller is not the one the operation may touch.
    InvalidRound,
    /// The active round's deadline has not passed yet.
    RoundNotReadyToSpin,
    /// The bet does not reference the round it was presented with.
    InvalidBet,
    /// The bet did not win the round's outcome.
    BetNotWinning,
    /// A table's minimum bet amount must be positive.
    InvalidMinimumBetAmount,
    /// A table's round period must be positive.
    InvalidRoundPeriod,
    /// The caller is not the table's admin.
    UnauthorizedAdmin,
    /// The active round no longer accepts bets.
    RoundOver,
    /// The round's outcome has not been resolved yet.
    RoundAwaitingOutcome,
    /// The vault holds less than the payout owed.
    InsufficientVaultFunds,
    /// The bet's shape is not a legal roulette bet.
    InvalidBetType,
    /// The bet's winnings were already paid out once.
    WinningsAlreadyClaimed,
    /// The null identity cannot be made admin.
    InvalidAddress,
    /// The requested withdrawal exceeds the vault's withdrawable surplus.
    VaultNotWithdrawable,
}

} // verus!
