//! The match system: scheduling a pairing after validating both
//! rosters and the first team's strategy, and resolving a match from
//! the participating players' attributes plus a timestamp-derived
//! perturbation. The perturbation makes outcomes predictable to
//! anyone who can read the clock; it stands in for a real randomness
//! source and is deliberately isolated in `random_factor`.

use vstd::prelude::*;
use vstd::string::StrSliceExecFns;
use crate::addr::Addr;
use crate::match_queue::{MatchQueue, PendingMatch};
use crate::player_stats;
use crate::player_stats::PlayerStats;
use crate::team_data;
use crate::team_data::TeamData;

verus! {

/// One decoded match-system request.
#[derive(Clone, Debug)]
pub enum MatchAction {
    ScheduleMatch { match_type: String },
    SimulateMatch { match_id: String },
}

#[derive(Clone, Copy, PartialEq, Eq, Structural, Debug)]
pub enum SystemError {
    /// The request payload could not be decoded, or a field of it is
    /// out of bounds.
    InvalidArgs,
    /// The request named no known action.
    UnknownAction,
    /// A team's roster is empty.
    InsufficientRoster,
    /// The first team has not selected a strategy.
    NoStrategy,
    /// The request lacked the match type.
    MatchTypeNotProvided,
    /// The request lacked the match identifier.
    MatchIdNotProvided,
    /// The pending-match queue already holds the maximum of 20
    /// entries.
    QueueFull,
    /// A record refused the mutation.
    Component(team_data::ComponentError),
}

/// The records one match-system call declares: the two teams, the
/// five players fielded by each, and the pending-match queue.
pub struct Components {
    pub team1_data: TeamData,
    pub team2_data: TeamData,
    pub team1_player1: PlayerStats,
    pub team1_player2: PlayerStats,
    pub team1_player3: PlayerStats,
    pub team1_player4: PlayerStats,
    pub team1_player5: PlayerStats,
    pub team2_player1: PlayerStats,
    pub team2_player2: PlayerStats,
    pub team2_player3: PlayerStats,
    pub team2_player4: PlayerStats,
    pub team2_player5: PlayerStats,
    pub match_queue: MatchQueue,
}

/// One player's contribution to the team strength: mechanical skill,
/// game knowledge, team communication and current form, summed
/// without normalization.
pub open spec fn contribution(p: PlayerStats) -> int {
    p.mechanical + p.game_knowledge + p.team_communication + p.form
}

/// The first team's strength: the sum of its five players'
/// contributions.
pub open spec fn team1_strength(c: Components) -> int {
    contribution(c.team1_player1) + contribution(c.team1_player2) + contribution(c.team1_player3)
        + contribution(c.team1_player4) + contribution(c.team1_player5)
}

/// The second team's strength.
pub open spec fn team2_strength(c: Components) -> int {
    contribution(c.team2_player1) + contribution(c.team2_player2) + contribution(c.team2_player3)
        + contribution(c.team2_player4) + contribution(c.team2_player5)
}

/// The perturbation drawn from the clock: the timestamp modulo 100.
/// Predictable and gameable by design of the source of entropy; kept
/// as one named, swappable definition.
pub open spec fn random_factor(now: i64) -> int {
    (now as int) % 100
}

/// The match outcome: each side's strength plus its asymmetric share
/// of the perturbation, compared strictly, so a tie goes to the
/// second team.
pub open spec fn team1_wins(c: Components, now: i64) -> bool {
    team1_strength(c) + random_factor(now) % 50 > team2_strength(c) + (100 - random_factor(now))
        % 50
}

/// The winner's score is 3, the loser's 1.
pub open spec fn score_of(win: bool) -> u8 {
    if win {
        3u8
    } else {
        1u8
    }
}

/// The decision of `schedule_match`: both rosters non-empty, a
/// strategy selected by the first team, a bounded match type, and
/// room in the queue.
pub open spec fn schedule_result(c: Components, match_type: String) -> Result<(), SystemError> {
    if c.team1_data.roster@.len() == 0 {
        Err(SystemError::InsufficientRoster)
    } else if c.team2_data.roster@.len() == 0 {
        Err(SystemError::InsufficientRoster)
    } else if c.team1_data.strategy.strategy_type@.len() == 0 {
        Err(SystemError::NoStrategy)
    } else if match_type@.len() > 20 {
        Err(SystemError::InvalidArgs)
    } else if c.match_queue.pending_matches@.len() >= 20 {
        Err(SystemError::QueueFull)
    } else {
        Ok(())
    }
}

/// The effect of a successful `schedule_match`: exactly one pairing
/// appended to the queue, every other record untouched.
pub open spec fn scheduled(
    c: Components,
    d: Components,
    match_type: String,
    team1_key: Addr,
    team2_key: Addr,
    now: i64,
) -> bool {
    &&& d.match_queue.pending_matches@ == c.match_queue.pending_matches@.push(
        PendingMatch { team1: team1_key, team2: team2_key, match_type, timestamp: now },
    )
    &&& d.team1_data == c.team1_data
    &&& d.team2_data == c.team2_data
    &&& players_unchanged(c, d)
}

/// No player record moved between `c` and `d`.
pub open spec fn players_unchanged(c: Components, d: Components) -> bool {
    &&& d.team1_player1 == c.team1_player1
    &&& d.team1_player2 == c.team1_player2
    &&& d.team1_player3 == c.team1_player3
    &&& d.team1_player4 == c.team1_player4
    &&& d.team1_player5 == c.team1_player5
    &&& d.team2_player1 == c.team2_player1
    &&& d.team2_player2 == c.team2_player2
    &&& d.team2_player3 == c.team2_player3
    &&& d.team2_player4 == c.team2_player4
    &&& d.team2_player5 == c.team2_player5
}

/// The decision of `simulate_match`: a bounded match identifier and
/// room in both teams' histories. Validation precedes every write, so
/// a refusal leaves all records untouched.
pub open spec fn simulate_result(c: Components, match_id: String) -> Result<(), SystemError> {
    if match_id@.len() > 50 {
        Err(SystemError::Component(team_data::ComponentError::InvalidMatchId))
    } else if c.team1_data.match_history@.len() >= 20 {
        Err(SystemError::Component(team_data::ComponentError::HistoryFull))
    } else if c.team2_data.match_history@.len() >= 20 {
        Err(SystemError::Component(team_data::ComponentError::HistoryFull))
    } else {
        Ok(())
    }
}

/// The effect of a successful `simulate_match`, with `w` the outcome
/// of `team1_wins`: the winner's rating rises by 25 and the loser's
/// falls by 20 (saturating), each team appends one history entry with
/// scores 3 to the winner and 1 to the loser, and every participating
/// player counts the match, advances exactly one of wins/losses, and
/// has its form moved by +5 (win, capped) or -3 (loss, floored).
pub open spec fn simulated(
    c: Components,
    d: Components,
    match_id: String,
    team1_key: Addr,
    team2_key: Addr,
    now: i64,
) -> bool {
    let w = team1_wins(c, now);
    &&& team_data::recorded_match_result(
        c.team1_data,
        d.team1_data,
        match_id,
        team2_key,
        w,
        score_of(w),
        score_of(!w),
        now,
    )
    &&& team_data::recorded_match_result(
        c.team2_data,
        d.team2_data,
        match_id,
        team1_key,
        !w,
        score_of(!w),
        score_of(w),
        now,
    )
    &&& d.team1_player1 == player_stats::after_match(c.team1_player1, w)
    &&& d.team1_player2 == player_stats::after_match(c.team1_player2, w)
    &&& d.team1_player3 == player_stats::after_match(c.team1_player3, w)
    &&& d.team1_player4 == player_stats::after_match(c.team1_player4, w)
    &&& d.team1_player5 == player_stats::after_match(c.team1_player5, w)
    &&& d.team2_player1 == player_stats::after_match(c.team2_player1, !w)
    &&& d.team2_player2 == player_stats::after_match(c.team2_player2, !w)
    &&& d.team2_player3 == player_stats::after_match(c.team2_player3, !w)
    &&& d.team2_player4 == player_stats::after_match(c.team2_player4, !w)
    &&& d.team2_player5 == player_stats::after_match(c.team2_player5, !w)
    &&& d.match_queue == c.match_queue
}

/// One player's contribution, computed executably.
fn contribution_of(p: &PlayerStats) -> (r: u32)
    ensures
        r == contribution(*p),
{
    p.mechanical as u32 + p.game_knowledge as u32 + p.team_communication as u32 + p.form as u32
}

/// Apply one match result to a player: count the match and move the
/// form.
fn update_player(p: &mut PlayerStats, win: bool)
    ensures
        *final(p) == player_stats::after_match(*old(p), win),
{
    let _ = p.record_match_result(win);
    let new_form = if win {
        if p.form > 95 {
            100
        } else {
            p.form + 5
        }
    } else {
        if p.form >= 3 {
            p.form - 3
        } else {
            0
        }
    };
    p.form = new_form;
}

/// Validate and enqueue one pairing of the two teams, identified by
/// their record addresses, at time `now`.
pub fn schedule_match(
    components: &mut Components,
    match_type: String,
    team1_key: Addr,
    team2_key: Addr,
    now: i64,
) -> (r: Result<(), SystemError>)
    ensures
        r == schedule_result(*old(components), match_type),
        r is Ok ==> scheduled(*old(components), *final(components), match_type, team1_key, team2_key, now),
        r is Err ==> *final(components) == *old(components),
        old(components).match_queue.wf() ==> final(components).match_queue.wf(),
{
    if components.team1_data.roster.len() == 0 {
        return Err(SystemError::InsufficientRoster);
    }
    if components.team2_data.roster.len() == 0 {
        return Err(SystemError::InsufficientRoster);
    }
    if components.team1_data.strategy.strategy_type.as_str().is_empty() {
        return Err(SystemError::NoStrategy);
    }
    if match_type.as_str().unicode_len() > 20 {
        return Err(SystemError::InvalidArgs);
    }
    if components.match_queue.pending_matches.len() >= 20 {
        return Err(SystemError::QueueFull);
    }
    components.match_queue.pending_matches.push(
        PendingMatch { team1: team1_key, team2: team2_key, match_type, timestamp: now },
    );
    Ok(())
}

/// Resolve one match between the two teams at time `now`, applying
/// every effect of `simulated` atomically: all validation precedes
/// the first write.
pub fn simulate_match(
    components: &mut Components,
    match_id: String,
    team1_key: Addr,
    team2_key: Addr,
    now: i64,
) -> (r: Result<(), SystemError>)
    requires
        now >= 0,
    ensures
        r == simulate_result(*old(components), match_id),
        r is Ok ==> simulated(*old(components), *final(components), match_id, team1_key, team2_key, now),
        r is Err ==> *final(components) == *old(components),
        old(components).team1_data.wf() ==> final(components).team1_data.wf(),
        old(components).team2_data.wf() ==> final(components).team2_data.wf(),
{
    if match_id.as_str().unicode_len() > 50 {
        return Err(SystemError::Component(team_data::ComponentError::InvalidMatchId));
    }
    if components.team1_data.match_history.len() >= 20 {
        return Err(SystemError::Component(team_data::ComponentError::HistoryFull));
    }
    if components.team2_data.match_history.len() >= 20 {
        return Err(SystemError::Component(team_data::ComponentError::HistoryFull));
    }
    let team1_strength_val = contribution_of(&components.team1_player1) + contribution_of(
        &components.team1_player2,
    ) + contribution_of(&components.team1_player3) + contribution_of(&components.team1_player4)
        + contribution_of(&components.team1_player5);
    let team2_strength_val = contribution_of(&components.team2_player1) + contribution_of(
        &components.team2_player2,
    ) + contribution_of(&components.team2_player3) + contribution_of(&components.team2_player4)
        + contribution_of(&components.team2_player5);
    let random_factor_val = (now % 100) as u32;
    let team1_final = team1_strength_val + random_factor_val % 50;
    let team2_final = team2_strength_val + (100 - random_factor_val) % 50;
    let win = team1_final > team2_final;
    // Both identifiers and history bounds were validated above, so
    // neither record can refuse.
    let _ = components.team1_data.record_match_result(
        match_id.clone(),
        team2_key,
        win,
        if win {
            3
        } else {
            1
        },
        if win {
            1
        } else {
            3
        },
        now,
    );
    let _ = components.team2_data.record_match_result(
        match_id,
        team1_key,
        !win,
        if !win {
            3
        } else {
            1
        },
        if !win {
            1
        } else {
            3
        },
        now,
    );
    update_player(&mut components.team1_player1, win);
    update_player(&mut components.team1_player2, win);
    update_player(&mut components.team1_player3, win);
    update_player(&mut components.team1_player4, win);
    update_player(&mut components.team1_player5, win);
    update_player(&mut components.team2_player1, !win);
    update_player(&mut components.team2_player2, !win);
    update_player(&mut components.team2_player3, !win);
    update_player(&mut components.team2_player4, !win);
    update_player(&mut components.team2_player5, !win);
    Ok(())
}

/// The decision of `execute` over the declared records and the
/// decoded action.
pub open spec fn execute_result(c: Components, action: MatchAction) -> Result<(), SystemError> {
    match action {
        MatchAction::ScheduleMatch { match_type } => schedule_result(c, match_type),
        MatchAction::SimulateMatch { match_id } => simulate_result(c, match_id),
    }
}

/// Run one decoded match-system request against the declared records.
/// A refused request reports exactly the error of `execute_result`
/// and leaves every record unchanged.
pub fn execute(
    components: &mut Components,
    action: MatchAction,
    team1_key: Addr,
    team2_key: Addr,
    now: i64,
) -> (r: Result<(), SystemError>)
    requires
        action is SimulateMatch ==> now >= 0,
    ensures
        r == execute_result(*old(components), action),
        r is Err ==> *final(components) == *old(components),
        r is Ok ==> match action {
            MatchAction::ScheduleMatch { match_type } => scheduled(
                *old(components),
                *final(components),
                match_type,
                team1_key,
                team2_key,
                now,
            ),
            MatchAction::SimulateMatch { match_id } => simulated(
                *old(components),
                *final(components),
                match_id,
                team1_key,
                team2_key,
                now,
            ),
        },
        old(components).team1_data.wf() ==> final(components).team1_data.wf(),
        old(components).team2_data.wf() ==> final(components).team2_data.wf(),
        old(components).match_queue.wf() ==> final(components).match_queue.wf(),
{
    match action {
        MatchAction::ScheduleMatch { match_type } => schedule_match(
            components,
            match_type,
            team1_key,
            team2_key,
            now,
        ),
        MatchAction::SimulateMatch { match_id } => simulate_match(
            components,
            match_id,
            team1_key,
            team2_key,
            now,
        ),
    }
}

} // verus!
