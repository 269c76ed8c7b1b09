//! The team management system: roster, strategy and team lifecycle
//! operations, dispatched from a decoded action. Ownership of the team
//! is checked before any privileged mutation; every refused call
//! leaves the declared records exactly as they were.

use vstd::prelude::*;
use crate::addr::Addr;
use crate::player_stats::PlayerStats;
use crate::team_data;
use crate::team_data::{ComponentError, TeamData};

verus! {

/// One decoded team-management request.
#[derive(Clone, Debug)]
pub enum TeamAction {
    CreateTeam { team_name: String },
    AddPlayerToTeam { player_nft_mint: Addr, position: String },
    RemovePlayerFromTeam { player_nft_mint: Addr },
    SetStrategy { strategy_type: String, strategy_description: String },
    DisbandTeam,
}

#[derive(Clone, Copy, PartialEq, Eq, Structural, Debug)]
pub enum SystemError {
    /// The request payload could not be decoded.
    InvalidArgs,
    /// The request named no known action.
    UnknownAction,
    /// The caller is not the team owner.
    NotTeamOwner,
    /// The named player record does not represent the given asset.
    InvalidNftOwnership,
    /// The team record was not supplied.
    TeamDataNotFound,
    /// The player record was not supplied.
    PlayerStatsNotFound,
    /// The request lacked the team name.
    TeamNameNotProvided,
    /// The request lacked the player asset identity.
    PlayerNftMintNotProvided,
    /// The request lacked the position.
    PositionNotProvided,
    /// The request lacked the strategy type.
    StrategyTypeNotProvided,
    /// The request lacked the strategy description.
    StrategyDescriptionNotProvided,
    /// A record refused the mutation.
    Component(ComponentError),
}

/// The records one team-management call declares.
pub struct Components {
    pub team_data: TeamData,
    pub player_stats: PlayerStats,
}

/// Lift a record's refusal into the system's error taxonomy.
pub open spec fn from_component(r: Result<(), ComponentError>) -> Result<(), SystemError> {
    match r {
        Ok(u) => Ok(u),
        Err(e) => Err(SystemError::Component(e)),
    }
}

/// The decision of `execute`: which requests succeed, and the exact
/// error each refused request reports.
pub open spec fn execute_result(c: Components, action: TeamAction, authority: Addr) -> Result<
    (),
    SystemError,
> {
    match action {
        TeamAction::CreateTeam { team_name } => from_component(
            team_data::initialize_result(team_name),
        ),
        TeamAction::AddPlayerToTeam { player_nft_mint, position } => {
            if c.player_stats.nft_mint != player_nft_mint {
                Err(SystemError::InvalidNftOwnership)
            } else {
                from_component(team_data::add_player_result(c.team_data, player_nft_mint, position))
            }
        },
        TeamAction::RemovePlayerFromTeam { player_nft_mint } => {
            if c.team_data.owner != authority {
                Err(SystemError::NotTeamOwner)
            } else if c.team_data.has_mint(player_nft_mint) {
                Ok(())
            } else {
                Err(SystemError::Component(ComponentError::PlayerNotFound))
            }
        },
        TeamAction::SetStrategy { strategy_type, strategy_description } => {
            if c.team_data.owner != authority {
                Err(SystemError::NotTeamOwner)
            } else {
                from_component(team_data::set_strategy_result(strategy_type, strategy_description))
            }
        },
        TeamAction::DisbandTeam => {
            if c.team_data.owner != authority {
                Err(SystemError::NotTeamOwner)
            } else {
                Ok(())
            }
        },
    }
}

/// The effect of a successful `execute`: how the new records relate to
/// the old ones, per action. The player record is never written by
/// this system.
pub open spec fn execute_transition(
    c: Components,
    d: Components,
    action: TeamAction,
    authority: Addr,
    now: i64,
) -> bool {
    &&& d.player_stats == c.player_stats
    &&& match action {
        TeamAction::CreateTeam { team_name } => team_data::initialized(
            d.team_data,
            team_name,
            authority,
            now,
        ),
        TeamAction::AddPlayerToTeam { player_nft_mint, position } => team_data::added_player(
            c.team_data,
            d.team_data,
            player_nft_mint,
            position,
        ),
        TeamAction::RemovePlayerFromTeam { player_nft_mint } => team_data::removed_player(
            c.team_data,
            d.team_data,
            player_nft_mint,
        ),
        TeamAction::SetStrategy { strategy_type, strategy_description } => team_data::strategy_set(
            c.team_data,
            d.team_data,
            strategy_type,
            strategy_description,
        ),
        TeamAction::DisbandTeam => team_data::disbanded(d.team_data),
    }
}

/// Run one decoded team-management request against the declared
/// records, as the verified caller `authority` at time `now`. A
/// refused request reports exactly the error of `execute_result` and
/// leaves both records unchanged; a successful one commits exactly the
/// transition of `execute_transition`.
pub fn execute(components: &mut Components, action: TeamAction, authority: Addr, now: i64) -> (r:
    Result<(), SystemError>)
    ensures
        r == execute_result(*old(components), action, authority),
        r is Ok ==> execute_transition(*old(components), *final(components), action, authority, now),
        r is Err ==> *final(components) == *old(components),
        old(components).team_data.wf() ==> final(components).team_data.wf(),
        action is CreateTeam && r is Ok ==> final(components).team_data.wf(),
{
    match action {
        TeamAction::CreateTeam { team_name } => {
            match components.team_data.initialize(team_name, authority, now) {
                Ok(()) => Ok(()),
                Err(e) => Err(SystemError::Component(e)),
            }
        },
        TeamAction::AddPlayerToTeam { player_nft_mint, position } => {
            if components.player_stats.nft_mint != player_nft_mint {
                return Err(SystemError::InvalidNftOwnership);
            }
            match components.team_data.add_player(player_nft_mint, position) {
                Ok(()) => Ok(()),
                Err(e) => Err(SystemError::Component(e)),
            }
        },
        TeamAction::RemovePlayerFromTeam { player_nft_mint } => {
            if components.team_data.owner != authority {
                return Err(SystemError::NotTeamOwner);
            }
            match components.team_data.remove_player(player_nft_mint) {
                Ok(()) => Ok(()),
                Err(e) => Err(SystemError::Component(e)),
            }
        },
        TeamAction::SetStrategy { strategy_type, strategy_description } => {
            if components.team_data.owner != authority {
                return Err(SystemError::NotTeamOwner);
            }
            match components.team_data.set_strategy(strategy_type, strategy_description) {
                Ok(()) => Ok(()),
                Err(e) => Err(SystemError::Component(e)),
            }
        },
        TeamAction::DisbandTeam => {
            if components.team_data.owner != authority {
                return Err(SystemError::NotTeamOwner);
            }
            match components.team_data.disband() {
                Ok(()) => Ok(()),
                Err(e) => Err(SystemError::Component(e)),
            }
        },
    }
}

} // verus!
