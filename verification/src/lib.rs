//! The game-state engine of an American-roulette betting table whose state
//! transitions are applied atomically by a hosting ledger and whose
//! randomness arrives by a single oracle callback per spin. The engine covers
//! the round lifecycle (open, spun, resolved), the closed taxonomy of wager
//! shapes with their geometric validity and winner tests, and the custody of
//! stakes in a shared vault with exactly-once payout under replay. Every
//! operation either fully applies or fails with a distinguishable error and
//! no state change, as its contract states.

pub mod bet;
pub mod error;
pub mod identity;
pub mod laws;
pub mod lifecycle;
pub mod round;
pub mod table;
pub mod vrf;

pub use bet::Bet;
pub use bet::BetType;
pub use error::MagicRouletteError;
pub use identity::Identity;
pub use lifecycle::SpinRequest;
pub use lifecycle::advance_round;
pub use lifecycle::claim_winnings;
pub use lifecycle::initialize_table;
pub use lifecycle::place_bet;
pub use lifecycle::spin_roulette;
pub use lifecycle::update_table;
pub use lifecycle::withdraw_vault;
pub use round::Round;
pub use table::Table;
pub use table::Vault;
