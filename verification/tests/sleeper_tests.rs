use football_rustbot::error::FflError;
use football_rustbot::sleeper::{
    directory_step, initial_directory_phase, league_details_url, needs_refresh, nfl_state_url,
    players_url, resolved_week, rosters_url, users_url, DirectoryPhase, NflPlayer, SleeperClient,
    SleeperNflStateApiResponse, SleeperRoster, SleeperTeamMetadata, SleeperUser, SECS_PER_DAY,
};

fn user(id: &str, display: &str, team_name: Option<&str>) -> SleeperUser {
    SleeperUser {
        user_id: id.to_string(),
        display_name: display.to_string(),
        metadata: SleeperTeamMetadata { team_name: team_name.map(|t| t.to_string()) },
        avatar: None,
    }
}

fn roster(roster_id: u32, owner: &str) -> SleeperRoster {
    SleeperRoster { roster_id, owner_id: owner.to_string() }
}

fn player(id: &str, first: &str, last: &str) -> (String, NflPlayer) {
    (
        id.to_string(),
        NflPlayer {
            player_id: id.to_string(),
            first_name: first.to_string(),
            last_name: last.to_string(),
            status: None,
            injury_status: None,
            injury_start_date: None,
            team: None,
        },
    )
}

#[test]
fn load_joins_users_and_rosters_by_owner_id() {
    let users = vec![user("u1", "Ann", None), user("u2", "Bob", Some("Bobcats"))];
    let rosters = vec![roster(7, "u2"), roster(3, "u1")];
    let c = SleeperClient::new("L1".to_string(), vec![], rosters, users).unwrap();
    assert_eq!(c.cache.teams.len(), 2);
    assert_eq!(c.cache.teams[0].user.user_id, "u1");
    assert_eq!(c.cache.teams[0].roster_id, 3);
    assert_eq!(c.cache.teams[1].user.user_id, "u2");
    assert_eq!(c.cache.teams[1].roster_id, 7);
}

#[test]
fn load_fails_when_a_user_has_no_roster() {
    let users = vec![user("u1", "Ann", None), user("u2", "Bob", None)];
    let rosters = vec![roster(3, "u1")];
    let r = SleeperClient::new("L1".to_string(), vec![], rosters, users);
    match r {
        Err(FflError::MissingRoster(id)) => assert_eq!(id, "u2"),
        other => panic!("expected a missing roster error, got ok: {}", other.is_ok()),
    }
}

#[test]
fn load_takes_the_last_roster_for_a_repeated_owner() {
    let users = vec![user("u1", "Ann", None)];
    let rosters = vec![roster(1, "u1"), roster(2, "u1")];
    let c = SleeperClient::new("L1".to_string(), vec![], rosters, users).unwrap();
    assert_eq!(c.cache.teams[0].roster_id, 2);
}

#[test]
fn constructor_stores_player_directory_verbatim() {
    let players = vec![player("p1", "Tom", "Brady"), player("p2", "Aaron", "Jones")];
    let c = SleeperClient::new("L1".to_string(), players, vec![], vec![]).unwrap();
    assert_eq!(c.cache.player_map.len(), 2);
    assert_eq!(c.cache.player_map[0].0, "p1");
    assert_eq!(c.cache.player_map[0].1.first_name, "Tom");
    assert_eq!(c.cache.player_map[1].1.last_name, "Jones");
}

#[test]
fn get_teams_prefers_custom_team_name() {
    let users = vec![user("u1", "Ann", Some("Annihilators")), user("u2", "Bob", None)];
    let rosters = vec![roster(1, "u1"), roster(2, "u2")];
    let c = SleeperClient::new("L1".to_string(), vec![], rosters, users).unwrap();
    let teams = c.get_teams();
    assert_eq!(teams.len(), 2);
    assert_eq!(teams[0].id, "u1");
    assert_eq!(teams[0].team_name, "Annihilators");
    assert_eq!(teams[0].owner_name, "Ann");
    assert_eq!(teams[1].team_name, "Bob");
    assert_eq!(teams[1].owner_name, "Bob");
}

#[test]
fn sleeper_matchups_are_a_defined_empty_placeholder() {
    let c = SleeperClient::new("L1".to_string(), vec![], vec![], vec![]).unwrap();
    assert!(c.get_matchups(3).is_empty());
}

#[test]
fn refresh_is_needed_only_past_the_threshold() {
    assert!(needs_refresh(None));
    assert!(needs_refresh(Some(SECS_PER_DAY + 1)));
    assert!(!needs_refresh(Some(SECS_PER_DAY)));
    assert!(!needs_refresh(Some(0)));
    assert_eq!(SECS_PER_DAY, 86400);
}

#[test]
fn stale_directory_walks_through_a_fetch() {
    let p = initial_directory_phase(Some(SECS_PER_DAY + 1));
    assert_eq!(p, DirectoryPhase::StaleOrMissing);
    let p = directory_step(p);
    assert_eq!(p, DirectoryPhase::Fetching);
    let p = directory_step(p);
    assert_eq!(p, DirectoryPhase::Written);
    let p = directory_step(p);
    assert_eq!(p, DirectoryPhase::Loaded);
    assert_eq!(directory_step(p), DirectoryPhase::Loaded);
}

#[test]
fn fresh_directory_loads_without_fetching() {
    let p = initial_directory_phase(Some(3600));
    assert_eq!(p, DirectoryPhase::Written);
    assert_eq!(directory_step(p), DirectoryPhase::Loaded);
}

#[test]
fn missing_directory_age_forces_a_fetch() {
    assert_eq!(initial_directory_phase(None), DirectoryPhase::StaleOrMissing);
}

#[test]
fn endpoint_urls_follow_the_api_layout() {
    assert_eq!(league_details_url("L99"), "https://api.sleeper.app/v1/league/L99");
    assert_eq!(rosters_url("L99"), "https://api.sleeper.app/v1/league/L99/rosters");
    assert_eq!(users_url("L99"), "https://api.sleeper.app/v1/league/L99/users");
    assert_eq!(players_url(), "https://api.sleeper.app/v1/players/nfl");
    assert_eq!(nfl_state_url(), "https://api.sleeper.app/v1/state/nfl");
}

#[test]
fn matchup_week_defaults_to_the_live_state() {
    let state = SleeperNflStateApiResponse { week: 12, season_type: "regular".to_string() };
    assert_eq!(resolved_week(Some(3), &state), 3);
    assert_eq!(resolved_week(None, &state), 12);
}
