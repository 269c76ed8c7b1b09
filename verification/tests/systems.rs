use esport::addr::Addr;
use esport::match_queue::{MatchQueue, PendingMatch};
use esport::match_system;
use esport::match_system::{MatchAction, SystemError as MatchError};
use esport::movement;
use esport::player_stats::PlayerStats;
use esport::position::Position;
use esport::team_data::{ComponentError as TeamError, Strategy, TeamData};
use esport::team_system;
use esport::team_system::{SystemError as TeamSysError, TeamAction};

fn blank_team() -> TeamData {
    TeamData {
        name: String::new(),
        owner: Addr { id: 0 },
        created_at: 0,
        roster: Vec::new(),
        strategy: Strategy {
            strategy_type: String::new(),
            description: String::new(),
        },
        match_history: Vec::new(),
        rating: 0,
    }
}

fn player(id: u64, skill: u8) -> PlayerStats {
    PlayerStats {
        nft_mint: Addr { id },
        role: "flex".to_string(),
        mechanical: skill,
        game_knowledge: skill,
        team_communication: skill,
        adaptability: skill,
        consistency: skill,
        form: skill,
        potential: skill,
        matches_played: 0,
        wins: 0,
        losses: 0,
    }
}

fn team_components() -> team_system::Components {
    team_system::Components {
        team_data: blank_team(),
        player_stats: player(1, 50),
    }
}

fn match_components(t1_skill: u8, t2_skill: u8) -> match_system::Components {
    match_system::Components {
        team1_data: blank_team(),
        team2_data: blank_team(),
        team1_player1: player(11, t1_skill),
        team1_player2: player(12, t1_skill),
        team1_player3: player(13, t1_skill),
        team1_player4: player(14, t1_skill),
        team1_player5: player(15, t1_skill),
        team2_player1: player(21, t2_skill),
        team2_player2: player(22, t2_skill),
        team2_player3: player(23, t2_skill),
        team2_player4: player(24, t2_skill),
        team2_player5: player(25, t2_skill),
        match_queue: MatchQueue {
            pending_matches: Vec::new(),
        },
    }
}

#[test]
fn end_to_end_team_lifecycle() {
    let owner = Addr { id: 77 };
    let mut comps = team_components();

    // Create the team.
    let r = team_system::execute(
        &mut comps,
        TeamAction::CreateTeam {
            team_name: "Alpha".to_string(),
        },
        owner,
        100,
    );
    assert_eq!(r, Ok(()));
    assert_eq!(comps.team_data.name, "Alpha");
    assert_eq!(comps.team_data.owner, owner);
    assert_eq!(comps.team_data.rating, 1000);

    // Add 5 distinct players; the player record must represent the
    // asset being added.
    for i in 0..5u64 {
        comps.player_stats = player(100 + i, 50);
        let r = team_system::execute(
            &mut comps,
            TeamAction::AddPlayerToTeam {
                player_nft_mint: Addr { id: 100 + i },
                position: format!("pos{}", i),
            },
            owner,
            101,
        );
        assert_eq!(r, Ok(()));
    }
    assert_eq!(comps.team_data.roster.len(), 5);

    // The 6th fails with RosterFull and the roster is unchanged.
    comps.player_stats = player(200, 50);
    let r = team_system::execute(
        &mut comps,
        TeamAction::AddPlayerToTeam {
            player_nft_mint: Addr { id: 200 },
            position: "sub".to_string(),
        },
        owner,
        102,
    );
    assert_eq!(r, Err(TeamSysError::Component(TeamError::RosterFull)));
    assert_eq!(comps.team_data.roster.len(), 5);

    // Set the strategy.
    let r = team_system::execute(
        &mut comps,
        TeamAction::SetStrategy {
            strategy_type: "aggressive".to_string(),
            strategy_description: "desc".to_string(),
        },
        owner,
        103,
    );
    assert_eq!(r, Ok(()));
    assert_eq!(comps.team_data.strategy.strategy_type, "aggressive");
}

#[test]
fn add_player_checks_asset_representation() {
    let owner = Addr { id: 77 };
    let mut comps = team_components();
    team_system::execute(
        &mut comps,
        TeamAction::CreateTeam {
            team_name: "Alpha".to_string(),
        },
        owner,
        0,
    )
    .unwrap();

    comps.player_stats = player(5, 50);
    let r = team_system::execute(
        &mut comps,
        TeamAction::AddPlayerToTeam {
            player_nft_mint: Addr { id: 6 },
            position: "top".to_string(),
        },
        owner,
        1,
    );
    assert_eq!(r, Err(TeamSysError::InvalidNftOwnership));
    assert!(comps.team_data.roster.is_empty());
}

#[test]
fn owner_checks_on_privileged_actions() {
    let owner = Addr { id: 77 };
    let stranger = Addr { id: 78 };
    let mut comps = team_components();
    team_system::execute(
        &mut comps,
        TeamAction::CreateTeam {
            team_name: "Alpha".to_string(),
        },
        owner,
        0,
    )
    .unwrap();

    let r = team_system::execute(
        &mut comps,
        TeamAction::RemovePlayerFromTeam {
            player_nft_mint: Addr { id: 1 },
        },
        stranger,
        1,
    );
    assert_eq!(r, Err(TeamSysError::NotTeamOwner));

    let r = team_system::execute(
        &mut comps,
        TeamAction::SetStrategy {
            strategy_type: "slow".to_string(),
            strategy_description: String::new(),
        },
        stranger,
        2,
    );
    assert_eq!(r, Err(TeamSysError::NotTeamOwner));

    let r = team_system::execute(&mut comps, TeamAction::DisbandTeam, stranger, 3);
    assert_eq!(r, Err(TeamSysError::NotTeamOwner));
    assert_eq!(comps.team_data.name, "Alpha");

    let r = team_system::execute(&mut comps, TeamAction::DisbandTeam, owner, 4);
    assert_eq!(r, Ok(()));
    assert!(comps.team_data.name.is_empty());
    assert_eq!(comps.team_data.rating, 0);
}

#[test]
fn remove_player_through_system() {
    let owner = Addr { id: 77 };
    let mut comps = team_components();
    team_system::execute(
        &mut comps,
        TeamAction::CreateTeam {
            team_name: "Alpha".to_string(),
        },
        owner,
        0,
    )
    .unwrap();
    comps.player_stats = player(9, 50);
    team_system::execute(
        &mut comps,
        TeamAction::AddPlayerToTeam {
            player_nft_mint: Addr { id: 9 },
            position: "mid".to_string(),
        },
        owner,
        1,
    )
    .unwrap();

    let r = team_system::execute(
        &mut comps,
        TeamAction::RemovePlayerFromTeam {
            player_nft_mint: Addr { id: 9 },
        },
        owner,
        2,
    );
    assert_eq!(r, Ok(()));
    assert!(comps.team_data.roster.is_empty());

    let r = team_system::execute(
        &mut comps,
        TeamAction::RemovePlayerFromTeam {
            player_nft_mint: Addr { id: 9 },
        },
        owner,
        3,
    );
    assert_eq!(r, Err(TeamSysError::Component(TeamError::PlayerNotFound)));
}

fn ready_teams(comps: &mut match_system::Components) {
    comps
        .team1_data
        .initialize("Alpha".to_string(), Addr { id: 1 }, 0)
        .unwrap();
    comps
        .team2_data
        .initialize("Beta".to_string(), Addr { id: 2 }, 0)
        .unwrap();
    comps
        .team1_data
        .add_player(Addr { id: 11 }, "top".to_string())
        .unwrap();
    comps
        .team2_data
        .add_player(Addr { id: 21 }, "top".to_string())
        .unwrap();
    comps
        .team1_data
        .set_strategy("aggressive".to_string(), "desc".to_string())
        .unwrap();
}

#[test]
fn schedule_validates_and_enqueues() {
    let t1 = Addr { id: 1001 };
    let t2 = Addr { id: 1002 };

    // Empty first roster.
    let mut comps = match_components(50, 50);
    let r = match_system::execute(
        &mut comps,
        MatchAction::ScheduleMatch {
            match_type: "ranked".to_string(),
        },
        t1,
        t2,
        5,
    );
    assert_eq!(r, Err(MatchError::InsufficientRoster));

    // Roster filled but no strategy.
    let mut comps = match_components(50, 50);
    comps
        .team1_data
        .initialize("Alpha".to_string(), Addr { id: 1 }, 0)
        .unwrap();
    comps
        .team2_data
        .initialize("Beta".to_string(), Addr { id: 2 }, 0)
        .unwrap();
    comps
        .team1_data
        .add_player(Addr { id: 11 }, "top".to_string())
        .unwrap();
    comps
        .team2_data
        .add_player(Addr { id: 21 }, "top".to_string())
        .unwrap();
    let r = match_system::execute(
        &mut comps,
        MatchAction::ScheduleMatch {
            match_type: "ranked".to_string(),
        },
        t1,
        t2,
        5,
    );
    assert_eq!(r, Err(MatchError::NoStrategy));

    // Fully ready: the pairing is enqueued.
    comps
        .team1_data
        .set_strategy("aggressive".to_string(), "desc".to_string())
        .unwrap();
    let r = match_system::execute(
        &mut comps,
        MatchAction::ScheduleMatch {
            match_type: "ranked".to_string(),
        },
        t1,
        t2,
        5,
    );
    assert_eq!(r, Ok(()));
    assert_eq!(comps.match_queue.pending_matches.len(), 1);
    let e = &comps.match_queue.pending_matches[0];
    assert_eq!(e.team1, t1);
    assert_eq!(e.team2, t2);
    assert_eq!(e.match_type, "ranked");
    assert_eq!(e.timestamp, 5);
}

#[test]
fn schedule_rejects_long_match_type() {
    let mut comps = match_components(50, 50);
    ready_teams(&mut comps);
    let r = match_system::execute(
        &mut comps,
        MatchAction::ScheduleMatch {
            match_type: "t".repeat(21),
        },
        Addr { id: 1001 },
        Addr { id: 1002 },
        5,
    );
    assert_eq!(r, Err(MatchError::InvalidArgs));
    assert!(comps.match_queue.pending_matches.is_empty());
}

#[test]
fn schedule_refuses_a_full_queue() {
    let mut comps = match_components(50, 50);
    ready_teams(&mut comps);
    for i in 0..20 {
        comps.match_queue.pending_matches.push(PendingMatch {
            team1: Addr { id: 1 },
            team2: Addr { id: 2 },
            match_type: "t".to_string(),
            timestamp: i,
        });
    }
    let r = match_system::execute(
        &mut comps,
        MatchAction::ScheduleMatch {
            match_type: "ranked".to_string(),
        },
        Addr { id: 1001 },
        Addr { id: 1002 },
        5,
    );
    assert_eq!(r, Err(MatchError::QueueFull));
    assert_eq!(comps.match_queue.pending_matches.len(), 20);
}

#[test]
fn simulate_applies_every_effect() {
    // A one-sided pairing: the first team's strength dwarfs the
    // perturbation, so it wins whatever the clock says.
    let t1 = Addr { id: 1001 };
    let t2 = Addr { id: 1002 };
    let mut comps = match_components(100, 0);
    ready_teams(&mut comps);

    let r = match_system::execute(
        &mut comps,
        MatchAction::SimulateMatch {
            match_id: "grand-final".to_string(),
        },
        t1,
        t2,
        0,
    );
    assert_eq!(r, Ok(()));

    // Winner +25, loser -20.
    assert_eq!(comps.team1_data.rating, 1025);
    assert_eq!(comps.team2_data.rating, 980);

    // One history entry each, with 3:1 scores and the opponent's key.
    assert_eq!(comps.team1_data.match_history.len(), 1);
    let h1 = &comps.team1_data.match_history[0];
    assert_eq!(h1.match_id, "grand-final");
    assert_eq!(h1.opponent, t2);
    assert!(h1.win);
    assert_eq!((h1.team_score, h1.opponent_score), (3, 1));
    let h2 = &comps.team2_data.match_history[0];
    assert_eq!(h2.opponent, t1);
    assert!(!h2.win);
    assert_eq!((h2.team_score, h2.opponent_score), (1, 3));

    // Every participating player counted the match and advanced
    // exactly one of wins/losses; form moved +5 capped or -3 floored.
    for p in [
        &comps.team1_player1,
        &comps.team1_player2,
        &comps.team1_player3,
        &comps.team1_player4,
        &comps.team1_player5,
    ] {
        assert_eq!((p.matches_played, p.wins, p.losses), (1, 1, 0));
        assert_eq!(p.form, 100); // capped at 100
    }
    for p in [
        &comps.team2_player1,
        &comps.team2_player2,
        &comps.team2_player3,
        &comps.team2_player4,
        &comps.team2_player5,
    ] {
        assert_eq!((p.matches_played, p.wins, p.losses), (1, 0, 1));
        assert_eq!(p.form, 0); // floored at 0
    }
}

#[test]
fn simulate_tie_goes_to_team_two() {
    // Equal strengths and a timestamp whose perturbation shares are
    // equal: 25 % 50 == (100 - 25) % 50, so the comparison ties and
    // the second team takes the win.
    let mut comps = match_components(50, 50);
    ready_teams(&mut comps);
    let r = match_system::execute(
        &mut comps,
        MatchAction::SimulateMatch {
            match_id: "m".to_string(),
        },
        Addr { id: 1001 },
        Addr { id: 1002 },
        25,
    );
    assert_eq!(r, Ok(()));
    assert_eq!(comps.team1_data.rating, 980);
    assert_eq!(comps.team2_data.rating, 1025);
    assert_eq!(comps.team1_player1.losses, 1);
    assert_eq!(comps.team2_player1.wins, 1);
}

#[test]
fn simulate_refuses_long_match_id_and_full_history() {
    let mut comps = match_components(50, 50);
    ready_teams(&mut comps);
    let r = match_system::execute(
        &mut comps,
        MatchAction::SimulateMatch {
            match_id: "i".repeat(51),
        },
        Addr { id: 1001 },
        Addr { id: 1002 },
        0,
    );
    assert_eq!(r, Err(MatchError::Component(TeamError::InvalidMatchId)));
    assert_eq!(comps.team1_data.rating, 1000);
    assert_eq!(comps.team1_player1.matches_played, 0);

    for i in 0..20 {
        comps
            .team2_data
            .record_match_result(format!("m{}", i), Addr { id: 5 }, true, 3, 1, i)
            .unwrap();
    }
    let r = match_system::execute(
        &mut comps,
        MatchAction::SimulateMatch {
            match_id: "m".to_string(),
        },
        Addr { id: 1001 },
        Addr { id: 1002 },
        0,
    );
    assert_eq!(r, Err(MatchError::Component(TeamError::HistoryFull)));
    // Atomic refusal: the first team was not written either.
    assert_eq!(comps.team1_data.match_history.len(), 0);
    assert_eq!(comps.team1_data.rating, 1000);
    assert_eq!(comps.team1_player1.matches_played, 0);
}

#[test]
fn movement_advances_position() {
    let mut comps = movement::Components {
        position: Position {
            x: 3,
            y: -2,
            z: 9,
            description: "spawn".to_string(),
        },
    };
    movement::execute(&mut comps);
    assert_eq!(comps.position.x, 4);
    assert_eq!(comps.position.y, -1);
    assert_eq!(comps.position.z, 9);
    assert_eq!(comps.position.description, "spawn");
}
