use vstd::prelude::*;

use crate::error::FluxionError;
use crate::identity::Identity;
use crate::profile::{byte_len, GameType, UserProfile};

verus! {

/// Longest game label (an instrument symbol such as "BTC/USD"), in bytes.
pub const MAX_SYMBOL_LEN: usize = 10;

/// Longest reward metadata URI, in bytes.
pub const MAX_URI_LEN: usize = 200;

/// The kinds of reward a player can claim.
#[derive(Clone, Copy, Debug, PartialEq, Eq, Structural)]
pub enum RewardType {
    DailyLogin,
    TierAchievement,
    WinStreak,
    Tournament,
}

/// What the caller reports of one finished game.
#[derive(Clone, Debug)]
pub struct GameResultData {
    pub won: bool,
    pub elo_change: i16,
    pub symbol: String,
    pub pnl: i64,
}

/// The log entry of one finished game. Never changed once made.
#[derive(Clone, Debug)]
pub struct GameResult {
    pub player: Identity,
    pub game_type: GameType,
    pub timestamp: i64,
    pub won: bool,
    pub elo_change: i16,
    pub final_elo: u16,
    pub symbol: String,
    pub pnl: i64,
}

/// The log entry of one reward claim. Never changed once made.
#[derive(Clone, Debug)]
pub struct NftClaim {
    pub player: Identity,
    pub reward_type: RewardType,
    pub metadata_uri: String,
    pub claimed_at: i64,
    pub elo_at_claim: u16,
}

impl GameResult {
    /// The entry that logs `result`, a game of `game_type` by `player`, at
    /// `timestamp`, with the rating that `profile` holds.
    pub open spec fn spec_new(
        player: Identity,
        profile: UserProfile,
        game_type: GameType,
        result: GameResultData,
        timestamp: i64,
    ) -> GameResult {
        GameResult {
            player,
            game_type,
            timestamp,
            won: result.won,
            elo_change: result.elo_change,
            final_elo: profile.elo,
            symbol: result.symbol,
            pnl: result.pnl,
        }
    }

    /// Logs `result`, a game of `game_type` by `player`, at `timestamp`. The
    /// final rating is read from `profile`, which the game has just updated.
    pub fn new(
        player: Identity,
        profile: &UserProfile,
        game_type: GameType,
        result: GameResultData,
        timestamp: i64,
    ) -> (r: GameResult)
        requires
            byte_len(result.symbol@) <= MAX_SYMBOL_LEN,
        ensures
            r == GameResult::spec_new(player, *profile, game_type, result, timestamp),
            r.final_elo == profile.elo,
    {
        GameResult {
            player,
            game_type,
            timestamp,
            won: result.won,
            elo_change: result.elo_change,
            final_elo: profile.elo,
            symbol: result.symbol,
            pnl: result.pnl,
        }
    }
}

impl NftClaim {
    /// The entry that logs a claim of `reward_type` by `player` at
    /// `claimed_at`, with the rating that `profile` holds.
    pub open spec fn spec_new(
        player: Identity,
        profile: UserProfile,
        reward_type: RewardType,
        metadata_uri: String,
        claimed_at: i64,
    ) -> NftClaim {
        NftClaim { player, reward_type, metadata_uri, claimed_at, elo_at_claim: profile.elo }
    }

    /// Logs a claim of `reward_type` by `player` at `claimed_at`, with the
    /// player's current rating. Fails with `UriTooLong` iff the URI holds
    /// more than 200 bytes. Claims of one kind may repeat.
    pub fn create(
        player: Identity,
        profile: &UserProfile,
        reward_type: RewardType,
        metadata_uri: String,
        claimed_at: i64,
    ) -> (r: Result<NftClaim, FluxionError>)
        ensures
            byte_len(metadata_uri@) > MAX_URI_LEN ==> r == Err::<NftClaim, FluxionError>(
                FluxionError::UriTooLong,
            ),
            byte_len(metadata_uri@) <= MAX_URI_LEN ==> r == Ok::<NftClaim, FluxionError>(
                NftClaim::spec_new(player, *profile, reward_type, metadata_uri, claimed_at),
            ),
    {
        if metadata_uri.as_str().len() > MAX_URI_LEN {
            Err(FluxionError::UriTooLong)
        } else {
            Ok(
                NftClaim {
                    player,
                    reward_type,
                    metadata_uri,
                    claimed_at,
                    elo_at_claim: profile.elo,
                },
            )
        }
    }
}

} // verus!
