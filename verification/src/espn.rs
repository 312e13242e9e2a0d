//! Provider adapter for the ESPN-flavored upstream API.
//!
//! The adapter is stateless beyond its static credentials. It computes the
//! request URL, cookie header and query parameters for the upstream call; the
//! surrounding program performs the transfer and hands back the decoded member
//! list, which [`EspnClient::get_teams`] turns into teams. Matchup retrieval
//! is a defined placeholder: it returns an empty list and never an error.

use crate::fantasy::{FantasyMatchup, FantasyTeam};
use crate::text::{spec_u64_dec, u64_to_string};
use vstd::prelude::*;
use vstd::string::StringExecFns;

verus! {

/// One league member as the upstream's team listing reports it.
#[derive(Debug)]
pub struct EspnMember {
    pub display_name: String,
    pub id: String,
}

/// Adapter for the ESPN-flavored upstream.
#[derive(Debug)]
pub struct EspnClient {
    pub league_id: u64,
    pub year: u32,
    pub espn_s2: String,
    pub swid: String,
}

/// The URL of the league endpoint for the given season and league.
pub open spec fn spec_request_url(c: EspnClient) -> Seq<char> {
    "https://fantasy.espn.com/apis/v3/games/ffl/seasons/"@ + spec_u64_dec(c.year as nat)
        + "/segments/0/leagues/"@ + spec_u64_dec(c.league_id as nat)
}

/// The cookie header carrying the credentials for a private league.
pub open spec fn spec_cookie_header(c: EspnClient) -> Seq<char> {
    "SWID="@ + c.swid@ + "; espn_s2="@ + c.espn_s2@
}

/// The team derived from one upstream member record.
pub open spec fn spec_team_of_member(m: EspnMember) -> FantasyTeam {
    FantasyTeam { id: m.id, team_name: m.display_name, owner_name: m.display_name }
}

impl EspnClient {
    /// A client holding exactly the given league coordinates and credentials.
    pub fn new(league_id: u64, year: u32, espn_s2: String, swid: String) -> (r: EspnClient)
        ensures
            r.league_id == league_id,
            r.year == year,
            r.espn_s2 == espn_s2,
            r.swid == swid,
    {
        EspnClient { league_id, year, espn_s2, swid }
    }

    /// The URL the upstream league request is sent to.
    pub fn request_url(&self) -> (r: String)
        ensures
            r@ == spec_request_url(*self),
    {
        let mut r = String::from_str("https://fantasy.espn.com/apis/v3/games/ffl/seasons/");
        let year = u64_to_string(self.year as u64);
        r.append(year.as_str());
        r.append("/segments/0/leagues/");
        let league = u64_to_string(self.league_id);
        r.append(league.as_str());
        r
    }

    /// The cookie header sent with every upstream request.
    pub fn cookie_header(&self) -> (r: String)
        ensures
            r@ == spec_cookie_header(*self),
    {
        let mut r = String::from_str("SWID=");
        r.append(self.swid.as_str());
        r.append("; espn_s2=");
        r.append(self.espn_s2.as_str());
        r
    }

    /// The query parameters requesting the given upstream views, one
    /// `("view", name)` pair per view.
    pub fn view_params(&self, views: Vec<String>) -> (r: Vec<(String, String)>)
        ensures
            r@.len() == views@.len(),
            forall|i: int|
                0 <= i < views@.len() ==> (#[trigger] r@[i]).0@ == "view"@ && r@[i].1 == views@[i],
    {
        let mut r: Vec<(String, String)> = Vec::new();
        let mut i: usize = 0;
        while i < views.len()
            invariant
                i <= views@.len(),
                r@.len() == i,
                forall|l: int|
                    0 <= l < i ==> (#[trigger] r@[l]).0@ == "view"@ && r@[l].1 == views@[l],
            decreases views@.len() - i,
        {
            r.push((String::from_str("view"), views[i].clone()));
            i = i + 1;
        }
        r
    }

    /// The current teams of the league, one per member record the upstream
    /// listing returned.
    pub fn get_teams(&self, members: &Vec<EspnMember>) -> (r: Vec<FantasyTeam>)
        ensures
            r@.len() == members@.len(),
            forall|i: int|
                0 <= i < members@.len() ==> r@[i] == spec_team_of_member(#[trigger] members@[i]),
    {
        let mut r: Vec<FantasyTeam> = Vec::new();
        let mut i: usize = 0;
        while i < members.len()
            invariant
                i <= members@.len(),
                r@.len() == i,
                forall|l: int|
                    0 <= l < i ==> r@[l] == spec_team_of_member(#[trigger] members@[l]),
            decreases members@.len() - i,
        {
            let m = &members[i];
            r.push(
                FantasyTeam {
                    id: m.id.clone(),
                    team_name: m.display_name.clone(),
                    owner_name: m.display_name.clone(),
                },
            );
            i = i + 1;
        }
        r
    }

    /// Matchup retrieval is a defined but unimplemented contract point of this
    /// adapter: it returns the empty list, never an error.
    pub fn get_matchups(&self, week_num: Option<u32>) -> (r: Vec<FantasyMatchup>)
        ensures
            r@ == Seq::<FantasyMatchup>::empty(),
    {
        let _ = week_num;
        let r: Vec<FantasyMatchup> = Vec::new();
        proof {
            assert(r@ =~= Seq::<FantasyMatchup>::empty());
        }
        r
    }
}

} // verus!
