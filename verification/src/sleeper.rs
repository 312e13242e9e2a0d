//! Provider adapter for the roster-service-flavored upstream API.
//!
//! The adapter owns an in-memory cache: a player directory shared conceptually
//! across all adapters, plus the league's roster-ownership and user data,
//! joined by owner identifier at construction. A user with no matching roster
//! is a hard construction error, never a partial cache. The on-disk player
//! directory file is refetched only when its age exceeds a fixed threshold;
//! the surrounding program performs every transfer and hands the decoded
//! records to [`SleeperClient::new`].

use crate::error::FflError;
use crate::fantasy::{FantasyMatchup, FantasyTeam};
use crate::text::clone_opt_string;
use vstd::prelude::*;
use vstd::string::StringExecFns;

verus! {

/// The number of seconds the on-disk player directory stays fresh.
pub const SECS_PER_DAY: u64 = 60 * 60 * 24;

/// Per-user metadata; a custom team name may be absent.
#[derive(Debug)]
pub struct SleeperTeamMetadata {
    pub team_name: Option<String>,
}

/// One league user as the upstream reports it.
#[derive(Debug)]
pub struct SleeperUser {
    pub user_id: String,
    pub display_name: String,
    pub metadata: SleeperTeamMetadata,
    pub avatar: Option<String>,
}

/// One roster entry: which owner holds which numeric roster.
#[derive(Debug)]
pub struct SleeperRoster {
    pub roster_id: u32,
    pub owner_id: String,
}

/// One entry of the player directory.
#[derive(Debug)]
pub struct NflPlayer {
    pub player_id: String,
    pub first_name: String,
    pub last_name: String,
    pub status: Option<String>,
    pub injury_status: Option<String>,
    pub injury_start_date: Option<String>,
    pub team: Option<String>,
}

/// The upstream's current week and season type.
#[derive(Debug)]
pub struct SleeperNflStateApiResponse {
    pub week: u32,
    pub season_type: String,
}

/// One joined cache row: a user together with the roster it owns.
#[derive(Debug)]
pub struct TeamEntry {
    pub user: SleeperUser,
    pub roster_id: u32,
}

/// The adapter's in-memory cache, immutable after construction.
#[derive(Debug)]
pub struct Cache {
    /// The player directory, keyed by provider-native player id.
    pub player_map: Vec<(String, NflPlayer)>,
    /// The roster-ownership and user data, joined by owner id.
    pub teams: Vec<TeamEntry>,
}

/// Adapter for the roster-service-flavored upstream.
#[derive(Debug)]
pub struct SleeperClient {
    pub league_id: String,
    pub cache: Cache,
}

impl Clone for SleeperTeamMetadata {
    fn clone(&self) -> (r: Self)
        ensures
            r == *self,
    {
        SleeperTeamMetadata { team_name: clone_opt_string(&self.team_name) }
    }
}

impl Clone for SleeperUser {
    fn clone(&self) -> (r: Self)
        ensures
            r == *self,
    {
        SleeperUser {
            user_id: self.user_id.clone(),
            display_name: self.display_name.clone(),
            metadata: self.metadata.clone(),
            avatar: clone_opt_string(&self.avatar),
        }
    }
}

/// The roster id the upstream data assigns to the given owner: the last
/// matching roster entry wins, as in a map rebuilt by insertion.
pub open spec fn spec_roster_for(rosters: Seq<SleeperRoster>, owner: Seq<char>) -> Option<u32>
    decreases rosters.len(),
{
    if rosters.len() == 0 {
        None
    } else if rosters.last().owner_id@ == owner {
        Some(rosters.last().roster_id)
    } else {
        spec_roster_for(rosters.drop_last(), owner)
    }
}

fn find_roster(rosters: &Vec<SleeperRoster>, owner: &String) -> (r: Option<u32>)
    ensures
        r == spec_roster_for(rosters@, owner@),
{
    let mut i: usize = rosters.len();
    proof {
        assert(rosters@.take(rosters@.len() as int) =~= rosters@);
    }
    while i > 0
        invariant
            i <= rosters@.len(),
            spec_roster_for(rosters@, owner@) == spec_roster_for(rosters@.take(i as int), owner@),
        decreases i,
    {
        if rosters[i - 1].owner_id == *owner {
            proof {
                assert(rosters@.take(i as int).last() == rosters@[i - 1]);
            }
            return Some(rosters[i - 1].roster_id);
        }
        proof {
            assert(rosters@.take(i as int).last() == rosters@[i - 1]);
            assert(rosters@.take(i as int).drop_last() =~= rosters@.take(i - 1));
        }
        i = i - 1;
    }
    None
}

/// Whether every user can be joined to a roster.
pub open spec fn spec_all_users_joined(users: Seq<SleeperUser>, rosters: Seq<SleeperRoster>) -> bool {
    forall|i: int|
        0 <= i < users.len() ==> spec_roster_for(rosters, (#[trigger] users[i]).user_id@) is Some
}

/// Joins the league's user list with its roster list by owner identifier.
///
/// Succeeds exactly when every user has a matching roster, yielding one cache
/// row per user, in user order; a user with no matching roster fails the whole
/// load rather than producing a partial map.
pub fn load_teams(users: &Vec<SleeperUser>, rosters: &Vec<SleeperRoster>) -> (r: Result<
    Vec<TeamEntry>,
    FflError,
>)
    ensures
        match r {
            Ok(entries) => {
                &&& spec_all_users_joined(users@, rosters@)
                &&& entries@.len() == users@.len()
                &&& forall|i: int|
                    0 <= i < users@.len() ==> (#[trigger] entries@[i]).user == users@[i]
                        && Some(entries@[i].roster_id) == spec_roster_for(
                        rosters@,
                        users@[i].user_id@,
                    )
            },
            Err(e) => {
                &&& !spec_all_users_joined(users@, rosters@)
                &&& exists|i: int|
                    0 <= i < users@.len() && spec_roster_for(
                        rosters@,
                        (#[trigger] users@[i]).user_id@,
                    ) is None && e == FflError::MissingRoster(users@[i].user_id)
            },
        },
{
    let mut entries: Vec<TeamEntry> = Vec::new();
    let mut i: usize = 0;
    while i < users.len()
        invariant
            i <= users@.len(),
            entries@.len() == i,
            forall|l: int|
                0 <= l < i ==> (#[trigger] entries@[l]).user == users@[l] && Some(
                    entries@[l].roster_id,
                ) == spec_roster_for(rosters@, users@[l].user_id@),
        decreases users@.len() - i,
    {
        let user = &users[i];
        match find_roster(rosters, &user.user_id) {
            Some(roster_id) => {
                entries.push(TeamEntry { user: user.clone(), roster_id });
            },
            None => {
                return Err(FflError::MissingRoster(user.user_id.clone()));
            },
        }
        i = i + 1;
    }
    proof {
        assert forall|i: int| 0 <= i < users@.len() implies spec_roster_for(
            rosters@,
            (#[trigger] users@[i]).user_id@,
        ) is Some by {
            assert(entries@[i].user == users@[i]);
        }
    }
    Ok(entries)
}

/// The user map the joined rows describe, keyed by owner id.
pub open spec fn spec_users_map(entries: Seq<TeamEntry>) -> Map<Seq<char>, SleeperUser>
    decreases entries.len(),
{
    if entries.len() == 0 {
        Map::empty()
    } else {
        spec_users_map(entries.drop_last()).insert(
            entries.last().user.user_id@,
            entries.last().user,
        )
    }
}

/// The roster-ownership map the joined rows describe, keyed by owner id.
pub open spec fn spec_roster_map(entries: Seq<TeamEntry>) -> Map<Seq<char>, u32>
    decreases entries.len(),
{
    if entries.len() == 0 {
        Map::empty()
    } else {
        spec_roster_map(entries.drop_last()).insert(
            entries.last().user.user_id@,
            entries.last().roster_id,
        )
    }
}

/// Law: the user map and the roster-ownership map built from one load always
/// agree on their key sets, and both key sets are exactly the owner ids of the
/// joined rows.
pub proof fn lemma_team_maps_agree(entries: Seq<TeamEntry>)
    ensures
        spec_users_map(entries).dom() =~= spec_roster_map(entries).dom(),
        spec_users_map(entries).dom() =~= Set::new(
            |k: Seq<char>|
                exists|i: int| 0 <= i < entries.len() && (#[trigger] entries[i]).user.user_id@ == k,
        ),
    decreases entries.len(),
{
    if entries.len() > 0 {
        lemma_team_maps_agree(entries.drop_last());
        assert forall|k: Seq<char>|
            spec_users_map(entries).dom().contains(k) implies Set::new(
            |k: Seq<char>|
                exists|i: int| 0 <= i < entries.len() && (#[trigger] entries[i]).user.user_id@ == k,
        ).contains(k) by {
            if k == entries.last().user.user_id@ {
                assert(entries[entries.len() - 1].user.user_id@ == k);
            } else {
                assert(exists|i: int|
                    0 <= i < entries.len() - 1 && (#[trigger] entries.drop_last()[i]).user.user_id@
                        == k);
                let i = choose|i: int|
                    0 <= i < entries.len() - 1 && (#[trigger] entries.drop_last()[i]).user.user_id@
                        == k;
                assert(entries[i].user.user_id@ == k);
            }
        }
        assert forall|k: Seq<char>|
            Set::new(
                |k: Seq<char>|
                    exists|i: int|
                        0 <= i < entries.len() && (#[trigger] entries[i]).user.user_id@ == k,
            ).contains(k) implies spec_users_map(entries).dom().contains(k) by {
            let i = choose|i: int|
                0 <= i < entries.len() && (#[trigger] entries[i]).user.user_id@ == k;
            if i < entries.len() - 1 {
                assert(entries.drop_last()[i].user.user_id@ == k);
            }
        }
    }
}

/// Law: when the joined rows carry pairwise-distinct owner ids, both maps have
/// exactly one entry per row.
pub proof fn lemma_team_maps_count(entries: Seq<TeamEntry>)
    requires
        forall|i: int, j: int|
            0 <= i < j < entries.len() ==> (#[trigger] entries[i]).user.user_id@ != (
            #[trigger] entries[j]).user.user_id@,
    ensures
        spec_users_map(entries).dom().finite(),
        spec_users_map(entries).dom().len() == entries.len(),
        spec_roster_map(entries).dom().len() == entries.len(),
    decreases entries.len(),
{
    lemma_team_maps_agree(entries);
    if entries.len() == 0 {
    } else {
        let prefix = entries.drop_last();
        lemma_team_maps_count(prefix);
        lemma_team_maps_agree(prefix);
        let k = entries.last().user.user_id@;
        assert(!spec_users_map(prefix).dom().contains(k)) by {
            if spec_users_map(prefix).dom().contains(k) {
                let i = choose|i: int|
                    0 <= i < prefix.len() && (#[trigger] prefix[i]).user.user_id@ == k;
                assert(entries[i].user.user_id@ == entries[entries.len() - 1].user.user_id@);
            }
        }
        assert(spec_users_map(entries).dom() =~= spec_users_map(prefix).dom().insert(k));
    }
}

/// Law: a load of `n` users, each with pairwise-distinct owner ids and a
/// matching roster, yields user and roster-ownership maps with exactly `n`
/// entries each, agreeing on their key sets.
pub proof fn lemma_load_maps_exact(users: Seq<SleeperUser>, entries: Seq<TeamEntry>)
    requires
        entries.len() == users.len(),
        forall|i: int| 0 <= i < users.len() ==> (#[trigger] entries[i]).user == users[i],
        forall|i: int, j: int|
            0 <= i < j < users.len() ==> (#[trigger] users[i]).user_id@ != (
            #[trigger] users[j]).user_id@,
    ensures
        spec_users_map(entries).dom() =~= spec_roster_map(entries).dom(),
        spec_users_map(entries).dom().len() == users.len(),
        spec_roster_map(entries).dom().len() == users.len(),
{
    assert forall|i: int, j: int| 0 <= i < j < entries.len() implies (
    #[trigger] entries[i]).user.user_id@ != (#[trigger] entries[j]).user.user_id@ by {
        assert(entries[i].user == users[i]);
        assert(entries[j].user == users[j]);
    }
    lemma_team_maps_agree(entries);
    lemma_team_maps_count(entries);
}

impl SleeperClient {
    /// Builds the adapter for one league from already-fetched upstream data:
    /// the decoded player directory and the league's roster and user lists.
    ///
    /// The player directory is stored exactly as handed in; the roster and
    /// user data are joined by owner identifier, and a user with no matching
    /// roster fails the whole construction.
    pub fn new(
        league_id: String,
        players: Vec<(String, NflPlayer)>,
        rosters: Vec<SleeperRoster>,
        users: Vec<SleeperUser>,
    ) -> (r: Result<SleeperClient, FflError>)
        ensures
            match r {
                Ok(c) => {
                    &&& c.league_id == league_id
                    &&& c.cache.player_map == players
                    &&& spec_all_users_joined(users@, rosters@)
                    &&& c.cache.teams@.len() == users@.len()
                    &&& forall|i: int|
                        0 <= i < users@.len() ==> (#[trigger] c.cache.teams@[i]).user == users@[i]
                            && Some(c.cache.teams@[i].roster_id) == spec_roster_for(
                            rosters@,
                            users@[i].user_id@,
                        )
                },
                Err(e) => {
                    &&& !spec_all_users_joined(users@, rosters@)
                    &&& exists|i: int|
                        0 <= i < users@.len() && spec_roster_for(
                            rosters@,
                            (#[trigger] users@[i]).user_id@,
                        ) is None && e == FflError::MissingRoster(users@[i].user_id)
                },
            },
    {
        let teams = match load_teams(&users, &rosters) {
            Ok(t) => t,
            Err(e) => {
                return Err(e);
            },
        };
        Ok(SleeperClient { league_id, cache: Cache { player_map: players, teams } })
    }

    /// The team derived from each cached user, in cache order: the user's
    /// custom team name when present, the display name otherwise.
    pub fn get_teams(&self) -> (r: Vec<FantasyTeam>)
        ensures
            r@.len() == self.cache.teams@.len(),
            forall|i: int|
                0 <= i < r@.len() ==> r@[i] == spec_team_of_user(
                    (#[trigger] self.cache.teams@[i]).user,
                ),
    {
        let mut r: Vec<FantasyTeam> = Vec::new();
        let mut i: usize = 0;
        while i < self.cache.teams.len()
            invariant
                i <= self.cache.teams@.len(),
                r@.len() == i,
                forall|l: int|
                    0 <= l < i ==> r@[l] == spec_team_of_user(
                        (#[trigger] self.cache.teams@[l]).user,
                    ),
            decreases self.cache.teams@.len() - i,
        {
            let user = &self.cache.teams[i].user;
            let team_name = match &user.metadata.team_name {
                Some(t) => t.clone(),
                None => user.display_name.clone(),
            };
            r.push(
                FantasyTeam {
                    id: user.user_id.clone(),
                    team_name,
                    owner_name: user.display_name.clone(),
                },
            );
            i = i + 1;
        }
        r
    }

    /// Matchup retrieval is a defined but unimplemented contract point of this
    /// adapter: it returns the empty list for the requested week, never an
    /// error.
    pub fn get_matchups(&self, week_num: u32) -> (r: Vec<FantasyMatchup>)
        ensures
            r@ == Seq::<FantasyMatchup>::empty(),
    {
        let _ = week_num;
        let r: Vec<FantasyMatchup> = Vec::new();
        proof {
            assert(r@ =~= Seq::<FantasyMatchup>::empty());
        }
        r
    }

}

/// The URL of the league-details endpoint for the given league.
pub fn league_details_url(league_id: &str) -> (r: String)
    ensures
        r@ == "https://api.sleeper.app/v1/league/"@ + league_id@,
{
    let mut r = String::from_str("https://api.sleeper.app/v1/league/");
    r.append(league_id);
    r
}

/// The URL a league's roster list is fetched from.
pub fn rosters_url(league_id: &str) -> (r: String)
    ensures
        r@ == "https://api.sleeper.app/v1/league/"@ + league_id@ + "/rosters"@,
{
    let mut r = league_details_url(league_id);
    r.append("/rosters");
    r
}

/// The URL a league's user list is fetched from.
pub fn users_url(league_id: &str) -> (r: String)
    ensures
        r@ == "https://api.sleeper.app/v1/league/"@ + league_id@ + "/users"@,
{
    let mut r = league_details_url(league_id);
    r.append("/users");
    r
}

/// The team derived from one cached user record.
pub open spec fn spec_team_of_user(u: SleeperUser) -> FantasyTeam {
    FantasyTeam {
        id: u.user_id,
        team_name: match u.metadata.team_name {
            Some(t) => t,
            None => u.display_name,
        },
        owner_name: u.display_name,
    }
}

/// The URL the full player directory is fetched from.
pub fn players_url() -> (r: String)
    ensures
        r@ == "https://api.sleeper.app/v1/players/nfl"@,
{
    String::from_str("https://api.sleeper.app/v1/players/nfl")
}

/// The URL the current week and season type are fetched from; that lookup is
/// never cached.
pub fn nfl_state_url() -> (r: String)
    ensures
        r@ == "https://api.sleeper.app/v1/state/nfl"@,
{
    String::from_str("https://api.sleeper.app/v1/state/nfl")
}

/// Whether the on-disk player directory must be refetched: when the file is
/// missing, when its age cannot be determined (`None`), or when it is older
/// than the freshness threshold.
pub fn needs_refresh(age_secs: Option<u64>) -> (r: bool)
    ensures
        r == match age_secs {
            None => true,
            Some(a) => a > SECS_PER_DAY,
        },
{
    match age_secs {
        None => true,
        Some(a) => a > SECS_PER_DAY,
    }
}

/// The week a matchup request asks for: the explicit week when given, the
/// upstream's current week otherwise.
pub fn resolved_week(week_num: Option<u32>, state: &SleeperNflStateApiResponse) -> (r: u32)
    ensures
        r == match week_num {
            Some(n) => n,
            None => state.week,
        },
{
    match week_num {
        Some(n) => n,
        None => state.week,
    }
}

/// Phases of the player-directory refresh at adapter construction. A stale or
/// missing file is fetched and rewritten; a fresh file skips straight to the
/// written phase. Either way the written file is then parsed into memory, so
/// construction always ends loaded.
#[derive(Debug, Clone, Copy, PartialEq, Eq, Structural)]
pub enum DirectoryPhase {
    StaleOrMissing,
    Fetching,
    Written,
    Loaded,
}

/// The phase the refresh starts in, given the on-disk file's age.
pub fn initial_directory_phase(age_secs: Option<u64>) -> (r: DirectoryPhase)
    ensures
        r == match age_secs {
            None => DirectoryPhase::StaleOrMissing,
            Some(a) => if a > SECS_PER_DAY {
                DirectoryPhase::StaleOrMissing
            } else {
                DirectoryPhase::Written
            },
        },
{
    if needs_refresh(age_secs) {
        DirectoryPhase::StaleOrMissing
    } else {
        DirectoryPhase::Written
    }
}

/// One step of the refresh: fetch when stale, write what was fetched, load
/// what was written; a loaded directory stays loaded.
pub fn directory_step(phase: DirectoryPhase) -> (r: DirectoryPhase)
    ensures
        r == match phase {
            DirectoryPhase::StaleOrMissing => DirectoryPhase::Fetching,
            DirectoryPhase::Fetching => DirectoryPhase::Written,
            DirectoryPhase::Written => DirectoryPhase::Loaded,
            DirectoryPhase::Loaded => DirectoryPhase::Loaded,
        },
{
    match phase {
        DirectoryPhase::StaleOrMissing => DirectoryPhase::Fetching,
        DirectoryPhase::Fetching => DirectoryPhase::Written,
        DirectoryPhase::Written => DirectoryPhase::Loaded,
        DirectoryPhase::Loaded => DirectoryPhase::Loaded,
    }
}

} // verus!
