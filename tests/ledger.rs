use fluxion_program::error::FluxionError;
use fluxion_program::identity::Identity;
use fluxion_program::instructions::{
    claim_nft_reward, claim_nft_reward_at, initialize_user, record_game_result,
    record_game_result_at, update_elo, update_elo_at, ClaimNftReward, InitializeUser,
    RecordGameResult, UpdateElo,
};
use fluxion_program::profile::{check_username, GameType, UserProfile};
use fluxion_program::records::{GameResult, GameResultData, NftClaim, RewardType};

fn alice() -> Identity {
    Identity::new([1u8; 32])
}

fn bob() -> Identity {
    let mut bytes = [1u8; 32];
    bytes[31] = 2;
    Identity::new(bytes)
}

fn fresh(owner: Identity) -> UserProfile {
    UserProfile::create(owner, "alice".to_string(), 100).unwrap()
}

fn assert_same_profile(a: &UserProfile, b: &UserProfile) {
    assert_eq!(a.owner, b.owner);
    assert_eq!(a.username, b.username);
    assert_eq!(a.elo, b.elo);
    assert_eq!(a.total_games, b.total_games);
    assert_eq!(a.wins, b.wins);
    assert_eq!(a.losses, b.losses);
    assert_eq!(a.predict_games, b.predict_games);
    assert_eq!(a.battle_games, b.battle_games);
    assert_eq!(a.highest_elo, b.highest_elo);
    assert_eq!(a.total_earnings, b.total_earnings);
    assert_eq!(a.created_at, b.created_at);
    assert_eq!(a.last_played, b.last_played);
}

fn data(won: bool, elo_change: i16, symbol: &str, pnl: i64) -> GameResultData {
    GameResultData { won, elo_change, symbol: symbol.to_string(), pnl }
}

#[test]
fn identity_equality_is_bytewise() {
    assert!(alice().same_as(&alice()));
    assert!(!alice().same_as(&bob()));
    assert_eq!(alice(), alice());
    assert_ne!(alice(), bob());
}

#[test]
fn create_sets_starting_values() {
    let p = UserProfile::create(alice(), "player_one".to_string(), 1234).unwrap();
    assert_eq!(p.owner, alice());
    assert_eq!(p.username, "player_one");
    assert_eq!(p.elo, 1000);
    assert_eq!(p.highest_elo, 1000);
    assert_eq!(p.total_games, 0);
    assert_eq!(p.wins, 0);
    assert_eq!(p.losses, 0);
    assert_eq!(p.predict_games, 0);
    assert_eq!(p.battle_games, 0);
    assert_eq!(p.total_earnings, 0);
    assert_eq!(p.created_at, 1234);
    assert_eq!(p.last_played, 1234);
}

#[test]
fn create_rejects_empty_username() {
    let r = UserProfile::create(alice(), String::new(), 0);
    assert_eq!(r.err(), Some(FluxionError::UsernameEmpty));
}

#[test]
fn create_rejects_33_byte_username() {
    let r = UserProfile::create(alice(), "a".repeat(33), 0);
    assert_eq!(r.err(), Some(FluxionError::UsernameTooLong));
}

#[test]
fn create_accepts_32_and_1_byte_usernames() {
    assert_eq!(UserProfile::create(alice(), "a".repeat(32), 0).unwrap().username.len(), 32);
    assert_eq!(UserProfile::create(alice(), "a".to_string(), 0).unwrap().username, "a");
}

#[test]
fn username_length_counts_bytes() {
    // "é" takes two bytes.
    assert!(check_username(&"é".repeat(16)).is_ok());
    assert_eq!(check_username(&"é".repeat(17)), Err(FluxionError::UsernameTooLong));
}

#[test]
fn initialize_user_validates_before_reading_the_clock() {
    let ctx = InitializeUser { user: alice() };
    assert_eq!(initialize_user(&ctx, String::new()).err(), Some(FluxionError::UsernameEmpty));
    assert_eq!(initialize_user(&ctx, "b".repeat(40)).err(), Some(FluxionError::UsernameTooLong));
}

#[test]
fn initialize_user_off_chain_has_no_clock() {
    let ctx = InitializeUser { user: alice() };
    assert_eq!(initialize_user(&ctx, "alice".to_string()).err(), Some(FluxionError::ClockUnavailable));
}

#[test]
fn large_loss_clamps_rating_at_zero() {
    let mut p = fresh(alice());
    p.apply(-1500, false, GameType::PredictBattle, 200);
    assert_eq!(p.elo, 0);
    assert_eq!(p.highest_elo, 1000);
    assert_eq!(p.total_games, 1);
    assert_eq!(p.losses, 1);
    assert_eq!(p.wins, 0);
    assert_eq!(p.predict_games, 1);
    assert_eq!(p.battle_games, 0);
    assert_eq!(p.last_played, 200);
    assert_eq!(p.created_at, 100);
}

#[test]
fn win_raises_rating_and_peak() {
    let mut p = fresh(alice());
    p.apply(50, true, GameType::BattleRoyale, 300);
    assert_eq!(p.elo, 1050);
    assert_eq!(p.highest_elo, 1050);
    assert_eq!(p.wins, 1);
    assert_eq!(p.losses, 0);
    assert_eq!(p.battle_games, 1);
    assert_eq!(p.predict_games, 0);
    assert_eq!(p.total_games, 1);
}

#[test]
fn most_negative_change_keeps_rating_at_zero() {
    let mut p = fresh(alice());
    p.elo = 5;
    p.apply(i16::MIN, false, GameType::BattleRoyale, 1);
    assert_eq!(p.elo, 0);
    p.apply(-1, false, GameType::BattleRoyale, 2);
    assert_eq!(p.elo, 0);
    assert_eq!(p.highest_elo, 1000);
}

#[test]
fn loss_keeps_peak_above_rating() {
    let mut p = fresh(alice());
    p.apply(200, true, GameType::PredictBattle, 1);
    p.apply(-30, false, GameType::PredictBattle, 2);
    assert_eq!(p.elo, 1170);
    assert_eq!(p.highest_elo, 1200);
}

#[test]
fn counters_stay_consistent_over_many_games() {
    let mut p = fresh(alice());
    let mut peak = p.highest_elo;
    for k in 0..40i64 {
        let won = k % 3 == 0;
        let mode = if k % 2 == 0 { GameType::PredictBattle } else { GameType::BattleRoyale };
        let change: i16 = if won { 25 } else { -40 };
        p.apply(change, won, mode, k);
        assert_eq!(p.total_games, p.wins + p.losses);
        assert_eq!(p.total_games, p.predict_games + p.battle_games);
        assert!(p.highest_elo >= p.elo);
        assert!(p.highest_elo >= peak);
        peak = p.highest_elo;
    }
    assert_eq!(p.total_games, 40);
    assert_eq!(p.wins, 14);
    assert_eq!(p.predict_games, 20);
}

#[test]
fn update_elo_at_applies_for_owner() {
    let mut ctx = UpdateElo { user_profile: fresh(alice()), user: alice() };
    assert_eq!(update_elo_at(&mut ctx, 50, true, GameType::BattleRoyale, 500), Ok(()));
    assert_eq!(ctx.user_profile.elo, 1050);
    assert_eq!(ctx.user_profile.highest_elo, 1050);
    assert_eq!(ctx.user_profile.last_played, 500);
}

#[test]
fn update_elo_at_rejects_other_identity() {
    let before = fresh(alice());
    let mut ctx = UpdateElo { user_profile: fresh(alice()), user: bob() };
    assert_eq!(
        update_elo_at(&mut ctx, 50, true, GameType::BattleRoyale, 500),
        Err(FluxionError::Unauthorized)
    );
    assert_same_profile(&ctx.user_profile, &before);
}

#[test]
fn update_elo_rejects_other_identity() {
    let before = fresh(alice());
    let mut ctx = UpdateElo { user_profile: fresh(alice()), user: bob() };
    assert_eq!(
        update_elo(&mut ctx, -20, false, GameType::PredictBattle),
        Err(FluxionError::Unauthorized)
    );
    assert_same_profile(&ctx.user_profile, &before);
}

#[test]
fn update_elo_without_clock_changes_nothing() {
    let before = fresh(alice());
    let mut ctx = UpdateElo { user_profile: fresh(alice()), user: alice() };
    assert_eq!(
        update_elo(&mut ctx, 10, true, GameType::PredictBattle),
        Err(FluxionError::ClockUnavailable)
    );
    assert_same_profile(&ctx.user_profile, &before);
}

#[test]
fn game_log_holds_rating_after_update() {
    let mut ctx = UpdateElo { user_profile: fresh(alice()), user: alice() };
    update_elo_at(&mut ctx, -1500, false, GameType::PredictBattle, 10).unwrap();
    let rec = RecordGameResult { user_profile: ctx.user_profile, user: alice() };
    let g: GameResult =
        record_game_result_at(&rec, GameType::PredictBattle, data(false, -1500, "BTC/USD", -42), 11)
            .unwrap();
    assert_eq!(g.final_elo, 0);
    assert_eq!(g.final_elo, rec.user_profile.elo);
    assert_eq!(g.player, alice());
    assert_eq!(g.game_type, GameType::PredictBattle);
    assert_eq!(g.timestamp, 11);
    assert!(!g.won);
    assert_eq!(g.elo_change, -1500);
    assert_eq!(g.symbol, "BTC/USD");
    assert_eq!(g.pnl, -42);
}

#[test]
fn game_result_new_reads_profile_rating() {
    let mut p = fresh(alice());
    p.apply(75, true, GameType::BattleRoyale, 5);
    let g = GameResult::new(alice(), &p, GameType::BattleRoyale, data(true, 75, "SOL/USD", 9), 6);
    assert_eq!(g.final_elo, 1075);
    assert_eq!(g.symbol, "SOL/USD");
}

#[test]
fn record_game_result_rejects_other_identity() {
    let rec = RecordGameResult { user_profile: fresh(alice()), user: bob() };
    let r = record_game_result(&rec, GameType::BattleRoyale, data(true, 5, "ETH", 1));
    assert_eq!(r.err(), Some(FluxionError::Unauthorized));
    let r = record_game_result_at(&rec, GameType::BattleRoyale, data(true, 5, "ETH", 1), 3);
    assert_eq!(r.err(), Some(FluxionError::Unauthorized));
}

#[test]
fn record_game_result_without_clock_fails() {
    let rec = RecordGameResult { user_profile: fresh(alice()), user: alice() };
    let r = record_game_result(&rec, GameType::BattleRoyale, data(true, 5, "ETH", 1));
    assert_eq!(r.err(), Some(FluxionError::ClockUnavailable));
}

#[test]
fn claim_snapshots_rating() {
    let mut p = fresh(alice());
    p.apply(120, true, GameType::PredictBattle, 1);
    let ctx = ClaimNftReward { user_profile: p, user: alice() };
    let c: NftClaim =
        claim_nft_reward_at(&ctx, RewardType::WinStreak, "ipfs://meta".to_string(), 77).unwrap();
    assert_eq!(c.player, alice());
    assert_eq!(c.reward_type, RewardType::WinStreak);
    assert_eq!(c.metadata_uri, "ipfs://meta");
    assert_eq!(c.claimed_at, 77);
    assert_eq!(c.elo_at_claim, 1120);
    assert_eq!(ctx.user_profile.elo, 1120);
}

#[test]
fn claim_uri_boundary_at_200_bytes() {
    let p = fresh(alice());
    let ok = NftClaim::create(alice(), &p, RewardType::Tournament, "u".repeat(200), 1);
    assert_eq!(ok.unwrap().metadata_uri.len(), 200);
    let too_long = NftClaim::create(alice(), &p, RewardType::Tournament, "u".repeat(201), 1);
    assert_eq!(too_long.err(), Some(FluxionError::UriTooLong));
    let ctx = ClaimNftReward { user_profile: fresh(alice()), user: alice() };
    assert_eq!(
        claim_nft_reward_at(&ctx, RewardType::DailyLogin, "u".repeat(201), 1).err(),
        Some(FluxionError::UriTooLong)
    );
    assert_eq!(
        claim_nft_reward(&ctx, RewardType::DailyLogin, "u".repeat(201)).err(),
        Some(FluxionError::UriTooLong)
    );
}

#[test]
fn claims_of_one_kind_may_repeat() {
    let ctx = ClaimNftReward { user_profile: fresh(alice()), user: alice() };
    let a = claim_nft_reward_at(&ctx, RewardType::DailyLogin, "x".to_string(), 1).unwrap();
    let b = claim_nft_reward_at(&ctx, RewardType::DailyLogin, "x".to_string(), 2).unwrap();
    assert_eq!(a.reward_type, b.reward_type);
    assert_eq!(b.claimed_at, 2);
}

#[test]
fn claim_rejects_other_identity_first() {
    let ctx = ClaimNftReward { user_profile: fresh(alice()), user: bob() };
    assert_eq!(
        claim_nft_reward(&ctx, RewardType::TierAchievement, "u".repeat(300)).err(),
        Some(FluxionError::Unauthorized)
    );
    assert_eq!(
        claim_nft_reward_at(&ctx, RewardType::TierAchievement, "ok".to_string(), 1).err(),
        Some(FluxionError::Unauthorized)
    );
}

#[test]
fn claim_without_clock_fails() {
    let ctx = ClaimNftReward { user_profile: fresh(alice()), user: alice() };
    assert_eq!(
        claim_nft_reward(&ctx, RewardType::TierAchievement, "ok".to_string()).err(),
        Some(FluxionError::ClockUnavailable)
    );
}

#[test]
fn authorize_matches_owner_only() {
    let p = fresh(alice());
    assert!(p.authorize(&alice()));
    assert!(!p.authorize(&bob()));
}
