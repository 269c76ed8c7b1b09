//! The persistent record of one team: name, owner, an ordered roster
//! of at most 5 players with unique asset identities, a strategy, a
//! bounded match history, and an ELO-style rating that saturates at
//! the unsigned 16-bit bounds.

use vstd::prelude::*;
use vstd::string::StrSliceExecFns;
use crate::addr::Addr;

verus! {

/// One roster entry: the asset identity of the player and the position
/// it fills.
#[derive(Clone, Debug)]
pub struct Player {
    pub nft_mint: Addr,
    pub position: String,
    pub active: bool,
}

/// The team's chosen strategy; both strings are empty until set.
#[derive(Clone, Debug)]
pub struct Strategy {
    pub strategy_type: String,
    pub description: String,
}

/// One entry of the append-only match history.
#[derive(Clone, Debug)]
pub struct MatchResult {
    pub match_id: String,
    pub opponent: Addr,
    pub win: bool,
    pub timestamp: i64,
    pub team_score: u8,
    pub opponent_score: u8,
}

/// The team record itself.
#[derive(Clone, Debug)]
pub struct TeamData {
    pub name: String,
    pub owner: Addr,
    pub created_at: i64,
    pub roster: Vec<Player>,
    pub strategy: Strategy,
    pub match_history: Vec<MatchResult>,
    pub rating: u16,
}

#[derive(Clone, Copy, PartialEq, Eq, Structural, Debug)]
pub enum ComponentError {
    /// The team name is empty or longer than 50 characters.
    InvalidName,
    /// The roster already holds the maximum of 5 players.
    RosterFull,
    /// The asset identity is already on the roster.
    PlayerAlreadyInRoster,
    /// No roster entry carries the asset identity.
    PlayerNotFound,
    /// The strategy type is empty or longer than 20 characters, or the
    /// description is longer than 100 characters.
    InvalidStrategy,
    /// The position string is longer than 20 characters.
    InvalidPosition,
    /// The match identifier is longer than 50 characters.
    InvalidMatchId,
    /// The match history already holds the maximum of 20 entries.
    HistoryFull,
}

/// Rating after a win: +25, saturating at the unsigned 16-bit bound.
pub open spec fn rating_after_win(r: u16) -> u16 {
    if r + 25 > u16::MAX {
        u16::MAX
    } else {
        (r + 25) as u16
    }
}

/// Rating after a loss: -20, floored at zero.
pub open spec fn rating_after_loss(r: u16) -> u16 {
    if r >= 20 {
        (r - 20) as u16
    } else {
        0u16
    }
}

/// The decision of `initialize` over its name argument.
pub open spec fn initialize_result(name: String) -> Result<(), ComponentError> {
    if name@.len() == 0 || name@.len() > 50 {
        Err(ComponentError::InvalidName)
    } else {
        Ok(())
    }
}

/// A successful `initialize` wrote exactly this record.
pub open spec fn initialized(t: TeamData, name: String, owner: Addr, now: i64) -> bool {
    &&& t.name@ == name@
    &&& t.owner == owner
    &&& t.created_at == now
    &&& t.roster@ == Seq::<Player>::empty()
    &&& t.strategy.strategy_type@ == Seq::<char>::empty()
    &&& t.strategy.description@ == Seq::<char>::empty()
    &&& t.match_history@ == Seq::<MatchResult>::empty()
    &&& t.rating == 1000u16
}

/// The decision of `add_player` over the record and its arguments.
pub open spec fn add_player_result(t: TeamData, nft_mint: Addr, position: String) -> Result<
    (),
    ComponentError,
> {
    if position@.len() > 20 {
        Err(ComponentError::InvalidPosition)
    } else if t.roster@.len() >= 5 {
        Err(ComponentError::RosterFull)
    } else if t.has_mint(nft_mint) {
        Err(ComponentError::PlayerAlreadyInRoster)
    } else {
        Ok(())
    }
}

/// A successful `add_player` turned `t` into `u`: the new entry is
/// appended and every other field is untouched.
pub open spec fn added_player(t: TeamData, u: TeamData, nft_mint: Addr, position: String) -> bool {
    &&& u.roster@ == t.roster@.push(Player { nft_mint, position, active: true })
    &&& u.name == t.name
    &&& u.owner == t.owner
    &&& u.created_at == t.created_at
    &&& u.strategy == t.strategy
    &&& u.match_history == t.match_history
    &&& u.rating == t.rating
}

/// A successful `remove_player` turned `t` into `u`: a roster entry
/// carrying the identity left (the first one; under well-formedness
/// the only one) and every other field is untouched.
pub open spec fn removed_player(t: TeamData, u: TeamData, nft_mint: Addr) -> bool {
    &&& exists|i: int|
        0 <= i < t.roster@.len() && t.roster@[i].nft_mint == nft_mint && u.roster@ == t.roster@.remove(
            i,
        )
    &&& u.name == t.name
    &&& u.owner == t.owner
    &&& u.created_at == t.created_at
    &&& u.strategy == t.strategy
    &&& u.match_history == t.match_history
    &&& u.rating == t.rating
}

/// A successful `set_strategy` turned `t` into `u`: the strategy is
/// overwritten and every other field is untouched.
pub open spec fn strategy_set(t: TeamData, u: TeamData, strategy_type: String, description: String) -> bool {
    &&& u.strategy.strategy_type@ == strategy_type@
    &&& u.strategy.description@ == description@
    &&& u.name == t.name
    &&& u.owner == t.owner
    &&& u.created_at == t.created_at
    &&& u.roster == t.roster
    &&& u.match_history == t.match_history
    &&& u.rating == t.rating
}

/// The decision of `set_strategy` over its arguments.
pub open spec fn set_strategy_result(strategy_type: String, description: String) -> Result<
    (),
    ComponentError,
> {
    if strategy_type@.len() == 0 || strategy_type@.len() > 20 || description@.len() > 100 {
        Err(ComponentError::InvalidStrategy)
    } else {
        Ok(())
    }
}

/// The decision of `record_match_result` over the record and the match
/// identifier.
pub open spec fn record_match_result_result(t: TeamData, match_id: String) -> Result<
    (),
    ComponentError,
> {
    if match_id@.len() > 50 {
        Err(ComponentError::InvalidMatchId)
    } else if t.match_history@.len() >= 20 {
        Err(ComponentError::HistoryFull)
    } else {
        Ok(())
    }
}

/// A successful `record_match_result` turned `t` into `u`: one history
/// entry is appended, the rating moves by +25 (win) or -20 (loss) with
/// saturation, and every other field is untouched.
pub open spec fn recorded_match_result(
    t: TeamData,
    u: TeamData,
    match_id: String,
    opponent: Addr,
    win: bool,
    team_score: u8,
    opponent_score: u8,
    now: i64,
) -> bool {
    &&& u.match_history@ == t.match_history@.push(
        MatchResult { match_id, opponent, win, timestamp: now, team_score, opponent_score },
    )
    &&& u.rating == (if win {
        rating_after_win(t.rating)
    } else {
        rating_after_loss(t.rating)
    })
    &&& u.name == t.name
    &&& u.owner == t.owner
    &&& u.created_at == t.created_at
    &&& u.roster == t.roster
    &&& u.strategy == t.strategy
}

/// `disband` wrote exactly this: the empty default record.
pub open spec fn disbanded(t: TeamData) -> bool {
    &&& t.name@ == Seq::<char>::empty()
    &&& t.owner == (Addr { id: 0u64 })
    &&& t.created_at == 0i64
    &&& t.roster@ == Seq::<Player>::empty()
    &&& t.strategy.strategy_type@ == Seq::<char>::empty()
    &&& t.strategy.description@ == Seq::<char>::empty()
    &&& t.match_history@ == Seq::<MatchResult>::empty()
    &&& t.rating == 0u16
}

/// A roster already holding 5 members refuses every further one, and
/// by the `add_player` contract the refusal leaves the record
/// unchanged: the roster size never exceeds 5.
pub proof fn lemma_roster_full_refuses(t: TeamData, nft_mint: Addr, position: String)
    requires
        t.roster@.len() >= 5,
    ensures
        add_player_result(t, nft_mint, position) is Err,
{
}

/// An asset identity already on the roster is refused again whatever
/// position it names, and by the `add_player` contract the refusal
/// leaves the record unchanged: roster identities stay unique.
pub proof fn lemma_duplicate_member_refused(t: TeamData, nft_mint: Addr, position: String)
    requires
        t.has_mint(nft_mint),
    ensures
        add_player_result(t, nft_mint, position) is Err,
{
}

impl TeamData {
    /// Some roster entry carries this asset identity.
    pub open spec fn has_mint(self, m: Addr) -> bool {
        exists|i: int| 0 <= i < self.roster@.len() && self.roster@[i].nft_mint == m
    }

    /// Roster asset identities are pairwise distinct.
    pub open spec fn roster_distinct(self) -> bool {
        forall|i: int, j: int|
            0 <= i < j < self.roster@.len() ==> self.roster@[i].nft_mint != self.roster@[j].nft_mint
    }

    /// Record well-formedness: bounded name, roster of at most 5
    /// distinct members with bounded positions, bounded strategy
    /// strings, and at most 20 bounded history entries.
    pub open spec fn wf(self) -> bool {
        &&& self.name@.len() <= 50
        &&& self.roster@.len() <= 5
        &&& self.roster_distinct()
        &&& forall|i: int|
            0 <= i < self.roster@.len() ==> (#[trigger] self.roster@[i]).position@.len() <= 20
        &&& self.strategy.strategy_type@.len() <= 20
        &&& self.strategy.description@.len() <= 100
        &&& self.match_history@.len() <= 20
        &&& forall|i: int|
            0 <= i < self.match_history@.len() ==> (
            #[trigger] self.match_history@[i]).match_id@.len() <= 50
    }

    /// First write of the record. Rejects an empty or over-long name;
    /// otherwise stores name and owner, stamps the creation time, sets
    /// the starting rating of 1000 and empties roster, strategy and
    /// history.
    pub fn initialize(&mut self, name: String, owner: Addr, now: i64) -> (r: Result<
        (),
        ComponentError,
    >)
        ensures
            r == initialize_result(name),
            r is Ok ==> initialized(*final(self), name, owner, now),
            r is Ok ==> final(self).wf(),
            r is Err ==> *final(self) == *old(self),
    {
        let n = name.as_str().unicode_len();
        if n == 0 || n > 50 {
            return Err(ComponentError::InvalidName);
        }
        self.name = name;
        self.owner = owner;
        self.created_at = now;
        self.roster = Vec::new();
        self.strategy = Strategy { strategy_type: String::new(), description: String::new() };
        self.match_history = Vec::new();
        self.rating = 1000;
        Ok(())
    }

    /// Append a roster entry. Rejects an over-long position, a full
    /// roster of 5, and a duplicate asset identity; on any rejection
    /// the roster is left unchanged.
    pub fn add_player(&mut self, nft_mint: Addr, position: String) -> (r: Result<
        (),
        ComponentError,
    >)
        ensures
            r == add_player_result(*old(self), nft_mint, position),
            r is Ok ==> added_player(*old(self), *final(self), nft_mint, position),
            r is Err ==> *final(self) == *old(self),
            old(self).wf() ==> final(self).wf(),
    {
        if position.as_str().unicode_len() > 20 {
            return Err(ComponentError::InvalidPosition);
        }
        if self.roster.len() >= 5 {
            return Err(ComponentError::RosterFull);
        }
        let mut i: usize = 0;
        while i < self.roster.len()
            invariant
                *self == *old(self),
                position@.len() <= 20,
                self.roster@.len() < 5,
                i <= self.roster@.len(),
                forall|j: int| 0 <= j < i ==> self.roster@[j].nft_mint != nft_mint,
            decreases self.roster@.len() - i,
        {
            if self.roster[i].nft_mint == nft_mint {
                proof {
                    assert(self.roster@[i as int].nft_mint == nft_mint);
                }
                return Err(ComponentError::PlayerAlreadyInRoster);
            }
            i += 1;
        }
        self.roster.push(Player { nft_mint, position, active: true });
        Ok(())
    }

    /// Remove the roster entry carrying this asset identity; rejects
    /// an absent identity and leaves the roster unchanged then. The
    /// first matching entry leaves (under well-formedness it is the
    /// only one).
    pub fn remove_player(&mut self, nft_mint: Addr) -> (r: Result<(), ComponentError>)
        ensures
            r is Ok <==> old(self).has_mint(nft_mint),
            r is Err ==> r == Err::<(), ComponentError>(ComponentError::PlayerNotFound)
                && *final(self) == *old(self),
            r is Ok ==> removed_player(*old(self), *final(self), nft_mint),
            old(self).wf() ==> final(self).wf(),
    {
        let mut i: usize = 0;
        while i < self.roster.len()
            invariant
                *self == *old(self),
                i <= self.roster@.len(),
                forall|j: int| 0 <= j < i ==> self.roster@[j].nft_mint != nft_mint,
            decreases self.roster@.len() - i,
        {
            if self.roster[i].nft_mint == nft_mint {
                proof {
                    assert(old(self).roster@[i as int].nft_mint == nft_mint);
                }
                self.roster.remove(i);
                proof {
                    old(self).roster@.remove_ensures(i as int);
                }
                return Ok(());
            }
            i += 1;
        }
        Err(ComponentError::PlayerNotFound)
    }

    /// Overwrite the strategy. Rejects an empty or over-long strategy
    /// type and an over-long description, leaving the record
    /// unchanged then.
    pub fn set_strategy(&mut self, strategy_type: String, description: String) -> (r: Result<
        (),
        ComponentError,
    >)
        ensures
            r == set_strategy_result(strategy_type, description),
            r is Ok ==> strategy_set(*old(self), *final(self), strategy_type, description),
            r is Err ==> *final(self) == *old(self),
            old(self).wf() ==> final(self).wf(),
    {
        let tn = strategy_type.as_str().unicode_len();
        if tn == 0 || tn > 20 || description.as_str().unicode_len() > 100 {
            return Err(ComponentError::InvalidStrategy);
        }
        self.strategy = Strategy { strategy_type, description };
        Ok(())
    }

    /// Append one match result and move the rating: +25 on a win, -20
    /// on a loss, saturating at the unsigned 16-bit bounds. Rejects an
    /// over-long match identifier and a full history, leaving the
    /// record unchanged then.
    pub fn record_match_result(
        &mut self,
        match_id: String,
        opponent: Addr,
        win: bool,
        team_score: u8,
        opponent_score: u8,
        now: i64,
    ) -> (r: Result<(), ComponentError>)
        ensures
            r == record_match_result_result(*old(self), match_id),
            r is Ok ==> recorded_match_result(
                *old(self),
                *final(self),
                match_id,
                opponent,
                win,
                team_score,
                opponent_score,
                now,
            ),
            r is Err ==> *final(self) == *old(self),
            old(self).wf() ==> final(self).wf(),
    {
        if match_id.as_str().unicode_len() > 50 {
            return Err(ComponentError::InvalidMatchId);
        }
        if self.match_history.len() >= 20 {
            return Err(ComponentError::HistoryFull);
        }
        self.match_history.push(
            MatchResult { match_id, opponent, win, timestamp: now, team_score, opponent_score },
        );
        if win {
            self.rating = if self.rating > u16::MAX - 25 {
                u16::MAX
            } else {
                self.rating + 25
            };
        } else {
            self.rating = if self.rating >= 20 {
                self.rating - 20
            } else {
                0
            };
        }
        Ok(())
    }

    /// Reset the record to its empty default state: empty name, zero
    /// owner and timestamps, empty roster, strategy and history, zero
    /// rating. The record is not deleted.
    pub fn disband(&mut self) -> (r: Result<(), ComponentError>)
        ensures
            r is Ok,
            disbanded(*final(self)),
            final(self).wf(),
    {
        self.name = String::new();
        self.owner = Addr::zero();
        self.created_at = 0;
        self.roster = Vec::new();
        self.strategy = Strategy { strategy_type: String::new(), description: String::new() };
        self.match_history = Vec::new();
        self.rating = 0;
        Ok(())
    }
}

} // verus!
