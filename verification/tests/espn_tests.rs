use football_rustbot::espn::{EspnClient, EspnMember};

fn client() -> EspnClient {
    EspnClient::new(123456, 2021, "secret-s2".to_string(), "{SWID-1}".to_string())
}

#[test]
fn new_stores_the_league_coordinates() {
    let c = client();
    assert_eq!(c.league_id, 123456);
    assert_eq!(c.year, 2021);
    assert_eq!(c.espn_s2, "secret-s2");
    assert_eq!(c.swid, "{SWID-1}");
}

#[test]
fn request_url_names_season_and_league() {
    assert_eq!(
        client().request_url(),
        "https://fantasy.espn.com/apis/v3/games/ffl/seasons/2021/segments/0/leagues/123456"
    );
}

#[test]
fn cookie_header_carries_both_credentials() {
    assert_eq!(client().cookie_header(), "SWID={SWID-1}; espn_s2=secret-s2");
}

#[test]
fn view_params_pair_each_view_with_the_view_key() {
    let params = client().view_params(vec!["mTeams".to_string(), "mMatchup".to_string()]);
    assert_eq!(
        params,
        vec![
            ("view".to_string(), "mTeams".to_string()),
            ("view".to_string(), "mMatchup".to_string()),
        ]
    );
}

#[test]
fn get_teams_lists_one_team_per_member() {
    let members = vec![
        EspnMember { display_name: "Ann".to_string(), id: "m1".to_string() },
        EspnMember { display_name: "Bob".to_string(), id: "m2".to_string() },
    ];
    let teams = client().get_teams(&members);
    assert_eq!(teams.len(), 2);
    assert_eq!(teams[0].id, "m1");
    assert_eq!(teams[0].team_name, "Ann");
    assert_eq!(teams[0].owner_name, "Ann");
    assert_eq!(teams[1].id, "m2");
}

#[test]
fn espn_matchups_are_a_defined_empty_placeholder() {
    assert!(client().get_matchups(Some(4)).is_empty());
    assert!(client().get_matchups(None).is_empty());
}
