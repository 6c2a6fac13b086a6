use vstd::prelude::*;

use crate::identity::Identity;
use crate::profile::{GameType, UserProfile};
use crate::records::{GameResult, GameResultData};

verus! {

/// One rating update: the change, whether the game was won, its mode and the
/// time of play.
pub type GameUpdate = (i16, bool, GameType, i64);

/// The profile after the updates of `games`, applied in order.
pub open spec fn replay(p: UserProfile, games: Seq<GameUpdate>) -> UserProfile
    decreases games.len(),
{
    if games.len() == 0 {
        p
    } else {
        let g = games[0];
        replay(p.applied(g.0, g.1, g.2, g.3), games.drop_first())
    }
}

/// Each update of `games`, in turn, meets what `UserProfile::apply` requires.
pub open spec fn replay_allowed(p: UserProfile, games: Seq<GameUpdate>) -> bool
    decreases games.len(),
{
    if games.len() == 0 {
        true
    } else {
        let g = games[0];
        p.can_apply(g.0) && replay_allowed(p.applied(g.0, g.1, g.2, g.3), games.drop_first())
    }
}

/// The profile after `i + 1` updates is the one after `i` updates with the
/// next one applied, and that next one is allowed.
proof fn lemma_replay_step(p: UserProfile, games: Seq<GameUpdate>, i: int)
    requires
        0 <= i < games.len(),
    ensures
        replay(p, games.take(i + 1)) == replay(p, games.take(i)).applied(
            games[i].0,
            games[i].1,
            games[i].2,
            games[i].3,
        ),
        replay_allowed(p, games) ==> replay(p, games.take(i)).can_apply(games[i].0),
    decreases i,
{
    let g = games[0];
    let q = p.applied(g.0, g.1, g.2, g.3);
    let rest = games.drop_first();
    assert(games.take(i + 1)[0] == g);
    if i == 0 {
        assert(games.take(1).drop_first() =~= Seq::<GameUpdate>::empty());
        assert(games.take(0) =~= Seq::<GameUpdate>::empty());
        assert(replay(q, Seq::<GameUpdate>::empty()) == q);
    } else {
        lemma_replay_step(q, rest, i - 1);
        assert(games.take(i)[0] == g);
        assert(games.take(i + 1).drop_first() =~= rest.take(i));
        assert(games.take(i).drop_first() =~= rest.take(i - 1));
        assert(rest[i - 1] == games[i]);
    }
}

proof fn lemma_prefix_consistent(p: UserProfile, games: Seq<GameUpdate>, i: int)
    requires
        p.stats_consistent(),
        replay_allowed(p, games),
        0 <= i <= games.len(),
    ensures
        replay(p, games.take(i)).stats_consistent(),
    decreases i,
{
    if i == 0 {
        assert(games.take(0) =~= Seq::<GameUpdate>::empty());
    } else {
        lemma_prefix_consistent(p, games, i - 1);
        lemma_replay_step(p, games, i - 1);
    }
}

/// Over any run of allowed rating updates, the peak rating never goes down,
/// and after every update it is at least the rating.
pub proof fn lemma_peak_never_decreases(p: UserProfile, games: Seq<GameUpdate>)
    requires
        replay_allowed(p, games),
    ensures
        forall|i: int|
            0 <= i < games.len() ==> #[trigger] replay(p, games.take(i + 1)).highest_elo >= replay(
                p,
                games.take(i),
            ).highest_elo,
        forall|i: int|
            0 <= i < games.len() ==> #[trigger] replay(p, games.take(i + 1)).highest_elo >= replay(
                p,
                games.take(i + 1),
            ).elo,
        replay(p, games).highest_elo >= p.highest_elo,
{
    assert forall|i: int| 0 <= i < games.len() implies #[trigger] replay(
        p,
        games.take(i + 1),
    ).highest_elo >= replay(p, games.take(i)).highest_elo && replay(
        p,
        games.take(i + 1),
    ).highest_elo >= replay(p, games.take(i + 1)).elo by {
        lemma_replay_step(p, games, i);
    }
    lemma_peak_from_start(p, games);
}

proof fn lemma_peak_from_start(p: UserProfile, games: Seq<GameUpdate>)
    ensures
        replay(p, games).highest_elo >= p.highest_elo,
    decreases games.len(),
{
    if games.len() > 0 {
        let g = games[0];
        lemma_peak_from_start(p.applied(g.0, g.1, g.2, g.3), games.drop_first());
    }
}

/// Over any run of allowed rating updates from a consistent profile, after
/// every update the total number of games equals wins plus losses, and equals
/// the games of one mode plus those of the other; the peak is at least the
/// rating.
pub proof fn lemma_counters_stay_consistent(p: UserProfile, games: Seq<GameUpdate>)
    requires
        p.stats_consistent(),
        replay_allowed(p, games),
    ensures
        forall|i: int|
            0 <= i <= games.len() ==> (#[trigger] replay(p, games.take(i))).stats_consistent(),
        replay(p, games).stats_consistent(),
{
    assert forall|i: int| 0 <= i <= games.len() implies (#[trigger] replay(
        p,
        games.take(i),
    )).stats_consistent() by {
        lemma_prefix_consistent(p, games, i);
    }
    assert(games.take(games.len() as int) =~= games);
}

/// The game log entry made right after a rating update holds the rating
/// that the update produced, never the one from before it.
pub proof fn lemma_log_shows_updated_rating(
    p: UserProfile,
    change: i16,
    won: bool,
    mode: GameType,
    now: i64,
    player: Identity,
    result: GameResultData,
    timestamp: i64,
)
    ensures
        GameResult::spec_new(
            player,
            p.applied(change, won, mode, now),
            mode,
            result,
            timestamp,
        ).final_elo == p.applied(change, won, mode, now).elo,
        p.can_apply(change) ==> GameResult::spec_new(
            player,
            p.applied(change, won, mode, now),
            mode,
            result,
            timestamp,
        ).final_elo as int == crate::profile::rating_after(p.elo, change),
{
}

} // verus!
