use football_rustbot::commands::{
    format_illness_list, format_power_rankings, handle_matchups, handle_standings,
    is_league_independent, parse_command, power_action, Command, IllnessRecord, PowerAction,
    TeamPower,
};
use football_rustbot::espn::EspnClient;
use football_rustbot::fantasy::{FflClient, FflClientType, LeagueConfig, LeagueType};
use football_rustbot::sleeper::SleeperClient;

fn record(
    name: &str,
    team: &str,
    start_date: Option<&str>,
    search_rank: Option<u64>,
) -> IllnessRecord {
    IllnessRecord {
        full_name: name.to_string(),
        team: team.to_string(),
        start_date: start_date.map(|d| d.to_string()),
        search_rank,
    }
}

#[test]
fn command_names_parse_to_the_known_commands() {
    assert_eq!(parse_command("matchups"), Some(Command::Matchups));
    assert_eq!(parse_command("standings"), Some(Command::Standings));
    assert_eq!(parse_command("power"), Some(Command::Power));
    assert_eq!(parse_command("whosgotcovid"), Some(Command::Illness));
    assert_eq!(parse_command("standingsx"), None);
    assert_eq!(parse_command(""), None);
}

#[test]
fn only_the_illness_command_is_league_independent() {
    assert!(is_league_independent(Command::Illness));
    assert!(!is_league_independent(Command::Matchups));
    assert!(!is_league_independent(Command::Standings));
    assert!(!is_league_independent(Command::Power));
}

#[test]
fn matchups_and_standings_answer_with_placeholders() {
    assert_eq!(handle_matchups(), "```\nthis is a matchups response\n```");
    assert_eq!(handle_standings(), "```\nthis is a standings response\n```");
}

#[test]
fn illness_list_keeps_ranked_records_and_drops_unranked() {
    let players = vec![
        record("A B", "NYJ", None, Some(5)),
        record("C D", "KC", Some("2021-09-01"), None),
    ];
    let out = format_illness_list(&players);
    assert!(out.contains("A B, NYJ"));
    assert!(!out.contains("C D"));
    assert_eq!(out, "```A B, NYJ```");
}

#[test]
fn illness_list_appends_the_start_date_when_present() {
    let players = vec![
        record("A B", "NYJ", Some("2021-09-01"), Some(5)),
        record("C D", "KC", None, Some(7)),
    ];
    let out = format_illness_list(&players);
    assert_eq!(out, "```A B, NYJ (2021-09-01)\nC D, KC```");
}

#[test]
fn illness_list_drops_ranks_at_the_sentinel() {
    let players = vec![record("A B", "NYJ", None, Some(9999999))];
    assert_eq!(format_illness_list(&players), "```\nNobody, apparently.\n```");
}

#[test]
fn empty_illness_list_answers_with_the_nobody_message() {
    assert_eq!(format_illness_list(&vec![]), "```\nNobody, apparently.\n```");
}

#[test]
fn power_rankings_format_lines_and_update_trailer() {
    let power = vec![TeamPower { team: "X".to_string(), power: "1.23".to_string() }];
    let out = format_power_rankings(&power, "2021-09-01");
    assert!(out.contains("X (1.23)"));
    assert!(out.ends_with("\nupdated 2021-09-01\n```"));
    assert_eq!(out, "```\nX (1.23)\n\nupdated 2021-09-01\n```");
}

#[test]
fn power_rankings_format_multiple_teams_in_order() {
    let power = vec![
        TeamPower { team: "X".to_string(), power: "1.23".to_string() },
        TeamPower { team: "Y".to_string(), power: "0.5".to_string() },
    ];
    let out = format_power_rankings(&power, "now");
    assert_eq!(out, "```\nX (1.23)\nY (0.5)\n\nupdated now\n```");
}

fn sleeper_league() -> FflClient {
    let adapter = SleeperClient::new("55".to_string(), vec![], vec![], vec![]).unwrap();
    FflClient::new(
        LeagueConfig {
            league_name: "Sleepy".to_string(),
            league_type: LeagueType::SLEEPER,
            league_id: "55".to_string(),
            discord_category_id: "100".to_string(),
            short_name: "sleepy".to_string(),
        },
        FflClientType::SLEEPER(adapter),
    )
    .unwrap()
}

fn espn_league() -> FflClient {
    FflClient::new(
        LeagueConfig {
            league_name: "Espy".to_string(),
            league_type: LeagueType::ESPN,
            league_id: "77".to_string(),
            discord_category_id: "200".to_string(),
            short_name: "espy".to_string(),
        },
        FflClientType::ESPN(EspnClient::new(77, 2021, "s2".to_string(), "swid".to_string())),
    )
    .unwrap()
}

#[test]
fn power_against_a_sleeper_league_answers_without_fetching() {
    let action = power_action(&sleeper_league(), "https://example.invalid/<LEAGUE_TYPE>/<LEAGUE_ID>");
    match action {
        PowerAction::Reply(m) => {
            assert_eq!(m, "power rankings for sleeper not implemented yet sorryyyyyyyy")
        },
        PowerAction::Fetch(u) => panic!("a sleeper league must not fetch {}", u),
    }
}

#[test]
fn power_against_an_espn_league_builds_the_fetch_url() {
    let action = power_action(&espn_league(), "https://example.invalid/<LEAGUE_TYPE>/<LEAGUE_ID>");
    match action {
        PowerAction::Fetch(u) => assert_eq!(u, "https://example.invalid/espn/77"),
        PowerAction::Reply(m) => panic!("an espn league must fetch, not reply {}", m),
    }
}
