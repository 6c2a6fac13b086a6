//! A competitive-gaming ledger: player profiles with an ELO rating and
//! game statistics, a log of game results, and a log of reward claims.
//!
//! Every state transition is a verified function with an exact contract.
//! The runtime's clock is the only outside service the library reads.

pub mod identity;
pub mod error;
pub mod profile;
pub mod records;
mod clock;
pub mod instructions;
pub mod history;
