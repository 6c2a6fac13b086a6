use vstd::prelude::*;
use vstd::utf8::encode_utf8;

use crate::error::FluxionError;
use crate::identity::Identity;

verus! {

/// Rating of a new profile.
pub const STARTING_ELO: u16 = 1000;

/// Longest username, in bytes.
pub const MAX_USERNAME_LEN: usize = 32;

/// Length in bytes of a string holding `s`, as `str::len` gives it.
pub open spec fn byte_len(s: Seq<char>) -> nat {
    (encode_utf8(s).len() as usize) as nat
}

/// The two game formats. Every game is of exactly one of them.
#[derive(Clone, Copy, Debug, PartialEq, Eq, Structural)]
pub enum GameType {
    PredictBattle,
    BattleRoyale,
}

/// A player's profile: rating, peak rating and game counters.
#[derive(Clone, Debug)]
pub struct UserProfile {
    pub owner: Identity,
    pub username: String,
    pub elo: u16,
    pub total_games: u32,
    pub wins: u32,
    pub losses: u32,
    pub predict_games: u32,
    pub battle_games: u32,
    pub highest_elo: u16,
    /// Kept for outside economic logic; no operation here changes it.
    pub total_earnings: i64,
    pub created_at: i64,
    pub last_played: i64,
}

/// Rating after adding `change` to `elo`, floored at zero.
pub open spec fn rating_after(elo: u16, change: i16) -> int {
    if elo as int + change as int <= 0 {
        0
    } else {
        elo as int + change as int
    }
}

/// The error that creating a profile with this username gives, if any.
pub open spec fn username_error(username: Seq<char>) -> Option<FluxionError> {
    if byte_len(username) > MAX_USERNAME_LEN {
        Some(FluxionError::UsernameTooLong)
    } else if byte_len(username) == 0 {
        Some(FluxionError::UsernameEmpty)
    } else {
        None
    }
}

impl UserProfile {
    /// The counters agree with each other and the peak is at least the rating.
    pub open spec fn stats_consistent(&self) -> bool {
        &&& self.highest_elo >= self.elo
        &&& self.total_games == self.wins + self.losses
        &&& self.total_games == self.predict_games + self.battle_games
    }

    /// The profile is what `create` builds and `apply` keeps.
    pub open spec fn wf(&self) -> bool {
        &&& self.stats_consistent()
        &&& 1 <= byte_len(self.username@) <= MAX_USERNAME_LEN
    }

    /// `identity` is the key that owns this profile.
    pub open spec fn is_owned_by(&self, identity: Identity) -> bool {
        self.owner.bytes@ == identity.bytes@
    }

    /// A fresh profile of `owner` named `username`, created at `now`.
    pub open spec fn spec_new(owner: Identity, username: String, now: i64) -> UserProfile {
        UserProfile {
            owner,
            username,
            elo: STARTING_ELO,
            total_games: 0,
            wins: 0,
            losses: 0,
            predict_games: 0,
            battle_games: 0,
            highest_elo: STARTING_ELO,
            total_earnings: 0,
            created_at: now,
            last_played: now,
        }
    }

    /// One more game can be counted, and the new rating fits in a `u16`.
    pub open spec fn can_apply(&self, change: i16) -> bool {
        &&& self.total_games < u32::MAX
        &&& self.wins < u32::MAX
        &&& self.losses < u32::MAX
        &&& self.predict_games < u32::MAX
        &&& self.battle_games < u32::MAX
        &&& rating_after(self.elo, change) <= u16::MAX
    }

    /// The profile after one game of `mode` that changed the rating by `change`,
    /// won or lost, played at `now`.
    pub open spec fn applied(self, change: i16, won: bool, mode: GameType, now: i64) -> UserProfile {
        let elo = rating_after(self.elo, change) as u16;
        UserProfile {
            owner: self.owner,
            username: self.username,
            elo,
            total_games: (self.total_games + 1) as u32,
            wins: if won { (self.wins + 1) as u32 } else { self.wins },
            losses: if won { self.losses } else { (self.losses + 1) as u32 },
            predict_games: if mode == GameType::PredictBattle {
                (self.predict_games + 1) as u32
            } else {
                self.predict_games
            },
            battle_games: if mode == GameType::BattleRoyale {
                (self.battle_games + 1) as u32
            } else {
                self.battle_games
            },
            highest_elo: if elo > self.highest_elo { elo } else { self.highest_elo },
            total_earnings: self.total_earnings,
            created_at: self.created_at,
            last_played: now,
        }
    }

    /// `next` is this profile after one game: the rating moved by `change`
    /// and floored at zero, the peak raised to it if lower, and the total, the
    /// win or the loss, and the game's mode each counted once. Counters that
    /// agreed before still agree.
    pub open spec fn one_game_later(
        self,
        next: UserProfile,
        change: i16,
        won: bool,
        mode: GameType,
    ) -> bool {
        &&& next.elo as int == rating_after(self.elo, change)
        &&& next.elo >= 0
        &&& next.highest_elo == (if next.elo > self.highest_elo {
            next.elo
        } else {
            self.highest_elo
        })
        &&& next.highest_elo >= self.highest_elo
        &&& next.highest_elo >= next.elo
        &&& next.total_games == self.total_games + 1
        &&& next.wins == self.wins + (if won { 1int } else { 0int })
        &&& next.losses == self.losses + (if won { 0int } else { 1int })
        &&& next.predict_games == self.predict_games + (if mode == GameType::PredictBattle {
            1int
        } else {
            0int
        })
        &&& next.battle_games == self.battle_games + (if mode == GameType::BattleRoyale {
            1int
        } else {
            0int
        })
        &&& self.stats_consistent() ==> next.stats_consistent()
    }

    /// Creates the profile of `owner`, named `username`, at time `now`: rating
    /// and peak 1000, every counter zero. The username must hold 1 to 32 bytes.
    pub fn create(owner: Identity, username: String, now: i64) -> (r: Result<
        UserProfile,
        FluxionError,
    >)
        ensures
            match username_error(username@) {
                Some(e) => r == Err::<UserProfile, FluxionError>(e),
                None => r == Ok::<UserProfile, FluxionError>(UserProfile::spec_new(owner, username, now)),
            },
            r is Ok ==> r->Ok_0.wf(),
    {
        match check_username(&username) {
            Err(e) => Err(e),
            Ok(()) => Ok(
                UserProfile {
                    owner,
                    username,
                    elo: STARTING_ELO,
                    total_games: 0,
                    wins: 0,
                    losses: 0,
                    predict_games: 0,
                    battle_games: 0,
                    highest_elo: STARTING_ELO,
                    total_earnings: 0,
                    created_at: now,
                    last_played: now,
                },
            ),
        }
    }

    /// True iff `identity` owns this profile: the one access check for changes.
    pub fn authorize(&self, identity: &Identity) -> (r: bool)
        ensures
            r == self.is_owned_by(*identity),
    {
        self.owner.same_as(identity)
    }

    /// Counts one game: the rating moves by `change`, floored at zero; the peak
    /// follows it up; the total, the win or the loss, and the game's mode are
    /// each counted once; the time of play becomes `now`.
    pub fn apply(&mut self, change: i16, won: bool, mode: GameType, now: i64)
        requires
            old(self).can_apply(change),
        ensures
            *final(self) == old(self).applied(change, won, mode, now),
            old(self).one_game_later(*final(self), change, won, mode),
            final(self).elo == rating_after(old(self).elo, change),
            final(self).elo >= 0,
            final(self).highest_elo >= old(self).highest_elo,
            final(self).highest_elo >= final(self).elo,
            old(self).stats_consistent() ==> final(self).stats_consistent(),
            old(self).wf() ==> final(self).wf(),
    {
        let sum: i32 = self.elo as i32 + change as i32;
        let new_elo: u16 = if sum <= 0 { 0 } else { sum as u16 };
        self.elo = new_elo;
        if new_elo > self.highest_elo {
            self.highest_elo = new_elo;
        }
        self.total_games = self.total_games + 1;
        if won {
            self.wins = self.wins + 1;
        } else {
            self.losses = self.losses + 1;
        }
        match mode {
            GameType::PredictBattle => self.predict_games = self.predict_games + 1,
            GameType::BattleRoyale => self.battle_games = self.battle_games + 1,
        }
        self.last_played = now;
    }
}

/// Checks that `username` holds 1 to 32 bytes.
pub fn check_username(username: &String) -> (r: Result<(), FluxionError>)
    ensures
        match username_error(username@) {
            Some(e) => r == Err::<(), FluxionError>(e),
            None => r is Ok,
        },
{
    let len = username.as_str().len();
    if len > MAX_USERNAME_LEN {
        Err(FluxionError::UsernameTooLong)
    } else if len == 0 {
        Err(FluxionError::UsernameEmpty)
    } else {
        Ok(())
    }
}

} // verus!
