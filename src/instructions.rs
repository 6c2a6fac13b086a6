use vstd::prelude::*;

use crate::clock::unix_timestamp_now;
use crate::error::FluxionError;
use crate::identity::Identity;
use crate::profile::{byte_len, check_username, username_error, GameType, UserProfile};
use crate::records::{GameResult, GameResultData, NftClaim, RewardType, MAX_SYMBOL_LEN, MAX_URI_LEN};

verus! {

/// The accounts of a profile creation: the signer who will own it.
pub struct InitializeUser {
    pub user: Identity,
}

/// The accounts of a rating update: the profile and the signer.
pub struct UpdateElo {
    pub user_profile: UserProfile,
    pub user: Identity,
}

/// The accounts of a game log entry: the signer's profile and the signer.
pub struct RecordGameResult {
    pub user_profile: UserProfile,
    pub user: Identity,
}

/// The accounts of a reward claim: the signer's profile and the signer.
pub struct ClaimNftReward {
    pub user_profile: UserProfile,
    pub user: Identity,
}

/// Reads the runtime clock, or fails with `ClockUnavailable`.
fn now() -> (r: Result<i64, FluxionError>)
    ensures
        r is Err ==> r == Err::<i64, FluxionError>(FluxionError::ClockUnavailable),
{
    match unix_timestamp_now() {
        Ok(t) => Ok(t),
        Err(_) => Err(FluxionError::ClockUnavailable),
    }
}

/// Creates the signer's profile named `username`, stamped with the runtime's
/// clock. Fails on a username outside 1 to 32 bytes, before reading the clock.
pub fn initialize_user(ctx: &InitializeUser, username: String) -> (r: Result<
    UserProfile,
    FluxionError,
>)
    ensures
        username_error(username@) is Some ==> r == Err::<UserProfile, FluxionError>(
            username_error(username@)->Some_0,
        ),
        username_error(username@) is None ==> match r {
            Ok(p) => p == UserProfile::spec_new(ctx.user, username, p.created_at) && p.wf(),
            Err(e) => e == FluxionError::ClockUnavailable,
        },
{
    match check_username(&username) {
        Err(e) => Err(e),
        Ok(()) => match now() {
            Err(e) => Err(e),
            Ok(t) => UserProfile::create(ctx.user, username, t),
        },
    }
}

/// Counts one game on the profile at time `now`, after checking that the
/// signer owns it. An unauthorized call changes nothing.
pub fn update_elo_at(
    ctx: &mut UpdateElo,
    elo_change: i16,
    game_won: bool,
    game_type: GameType,
    now: i64,
) -> (r: Result<(), FluxionError>)
    requires
        old(ctx).user_profile.is_owned_by(old(ctx).user) ==> old(ctx).user_profile.can_apply(
            elo_change,
        ),
    ensures
        final(ctx).user == old(ctx).user,
        !old(ctx).user_profile.is_owned_by(old(ctx).user) ==> {
            &&& r == Err::<(), FluxionError>(FluxionError::Unauthorized)
            &&& final(ctx).user_profile == old(ctx).user_profile
        },
        old(ctx).user_profile.is_owned_by(old(ctx).user) ==> {
            &&& r is Ok
            &&& final(ctx).user_profile == old(ctx).user_profile.applied(
                elo_change,
                game_won,
                game_type,
                now,
            )
            &&& old(ctx).user_profile.one_game_later(
                final(ctx).user_profile,
                elo_change,
                game_won,
                game_type,
            )
        },
{
    if !ctx.user_profile.authorize(&ctx.user) {
        return Err(FluxionError::Unauthorized);
    }
    ctx.user_profile.apply(elo_change, game_won, game_type, now);
    Ok(())
}

/// Counts one game on the profile at the runtime clock's time, after
/// checking that the signer owns it. A failed call changes nothing.
pub fn update_elo(ctx: &mut UpdateElo, elo_change: i16, game_won: bool, game_type: GameType) -> (r:
    Result<(), FluxionError>)
    requires
        old(ctx).user_profile.is_owned_by(old(ctx).user) ==> old(ctx).user_profile.can_apply(
            elo_change,
        ),
    ensures
        final(ctx).user == old(ctx).user,
        !old(ctx).user_profile.is_owned_by(old(ctx).user) ==> r == Err::<(), FluxionError>(
            FluxionError::Unauthorized,
        ),
        r is Err ==> final(ctx).user_profile == old(ctx).user_profile,
        r is Err ==> r->Err_0 == FluxionError::Unauthorized || r->Err_0
            == FluxionError::ClockUnavailable,
        old(ctx).user_profile.is_owned_by(old(ctx).user) && r is Err ==> r->Err_0
            == FluxionError::ClockUnavailable,
        r is Ok ==> {
            &&& old(ctx).user_profile.is_owned_by(old(ctx).user)
            &&& final(ctx).user_profile == old(ctx).user_profile.applied(
                elo_change,
                game_won,
                game_type,
                final(ctx).user_profile.last_played,
            )
            &&& old(ctx).user_profile.one_game_later(
                final(ctx).user_profile,
                elo_change,
                game_won,
                game_type,
            )
        },
{
    if !ctx.user_profile.authorize(&ctx.user) {
        return Err(FluxionError::Unauthorized);
    }
    match now() {
        Err(e) => Err(e),
        Ok(t) => update_elo_at(ctx, elo_change, game_won, game_type, t),
    }
}

/// Logs `result`, a game of `game_type` played by the signer, at time
/// `now`, with the rating that the signer's profile holds after the game.
pub fn record_game_result_at(
    ctx: &RecordGameResult,
    game_type: GameType,
    result: GameResultData,
    now: i64,
) -> (r: Result<GameResult, FluxionError>)
    requires
        byte_len(result.symbol@) <= MAX_SYMBOL_LEN,
    ensures
        !ctx.user_profile.is_owned_by(ctx.user) ==> r == Err::<GameResult, FluxionError>(
            FluxionError::Unauthorized,
        ),
        ctx.user_profile.is_owned_by(ctx.user) ==> r == Ok::<GameResult, FluxionError>(
            GameResult::spec_new(ctx.user, ctx.user_profile, game_type, result, now),
        ),
        r is Ok ==> r->Ok_0.final_elo == ctx.user_profile.elo,
{
    if !ctx.user_profile.authorize(&ctx.user) {
        return Err(FluxionError::Unauthorized);
    }
    Ok(GameResult::new(ctx.user, &ctx.user_profile, game_type, result, now))
}

/// Logs `result` as `record_game_result_at` does, at the runtime clock's time.
pub fn record_game_result(ctx: &RecordGameResult, game_type: GameType, result: GameResultData) -> (r:
    Result<GameResult, FluxionError>)
    requires
        byte_len(result.symbol@) <= MAX_SYMBOL_LEN,
    ensures
        !ctx.user_profile.is_owned_by(ctx.user) ==> r == Err::<GameResult, FluxionError>(
            FluxionError::Unauthorized,
        ),
        ctx.user_profile.is_owned_by(ctx.user) ==> match r {
            Ok(g) => g == GameResult::spec_new(
                ctx.user,
                ctx.user_profile,
                game_type,
                result,
                g.timestamp,
            ),
            Err(e) => e == FluxionError::ClockUnavailable,
        },
        r is Ok ==> r->Ok_0.final_elo == ctx.user_profile.elo,
{
    if !ctx.user_profile.authorize(&ctx.user) {
        return Err(FluxionError::Unauthorized);
    }
    match now() {
        Err(e) => Err(e),
        Ok(t) => record_game_result_at(ctx, game_type, result, t),
    }
}

/// Logs the signer's claim of `reward_type` at time `now`, with the rating
/// that the profile holds. The owner check comes first, then the URI's length.
pub fn claim_nft_reward_at(
    ctx: &ClaimNftReward,
    reward_type: RewardType,
    metadata_uri: String,
    now: i64,
) -> (r: Result<NftClaim, FluxionError>)
    ensures
        !ctx.user_profile.is_owned_by(ctx.user) ==> r == Err::<NftClaim, FluxionError>(
            FluxionError::Unauthorized,
        ),
        ctx.user_profile.is_owned_by(ctx.user) && byte_len(metadata_uri@) > MAX_URI_LEN ==> r
            == Err::<NftClaim, FluxionError>(FluxionError::UriTooLong),
        ctx.user_profile.is_owned_by(ctx.user) && byte_len(metadata_uri@) <= MAX_URI_LEN ==> r
            == Ok::<NftClaim, FluxionError>(
            NftClaim::spec_new(ctx.user, ctx.user_profile, reward_type, metadata_uri, now),
        ),
{
    if !ctx.user_profile.authorize(&ctx.user) {
        return Err(FluxionError::Unauthorized);
    }
    NftClaim::create(ctx.user, &ctx.user_profile, reward_type, metadata_uri, now)
}

/// Logs the signer's claim as `claim_nft_reward_at` does, at the runtime
/// clock's time, which is read only once both checks have passed.
pub fn claim_nft_reward(ctx: &ClaimNftReward, reward_type: RewardType, metadata_uri: String) -> (r:
    Result<NftClaim, FluxionError>)
    ensures
        !ctx.user_profile.is_owned_by(ctx.user) ==> r == Err::<NftClaim, FluxionError>(
            FluxionError::Unauthorized,
        ),
        ctx.user_profile.is_owned_by(ctx.user) && byte_len(metadata_uri@) > MAX_URI_LEN ==> r
            == Err::<NftClaim, FluxionError>(FluxionError::UriTooLong),
        ctx.user_profile.is_owned_by(ctx.user) && byte_len(metadata_uri@) <= MAX_URI_LEN ==> match r {
            Ok(c) => c == NftClaim::spec_new(
                ctx.user,
                ctx.user_profile,
                reward_type,
                metadata_uri,
                c.claimed_at,
            ),
            Err(e) => e == FluxionError::ClockUnavailable,
        },
{
    if !ctx.user_profile.authorize(&ctx.user) {
        return Err(FluxionError::Unauthorized);
    }
    if metadata_uri.as_str().len() > MAX_URI_LEN {
        return Err(FluxionError::UriTooLong);
    }
    match now() {
        Err(e) => Err(e),
        Ok(t) => claim_nft_reward_at(ctx, reward_type, metadata_uri, t),
    }
}

} // verus!
