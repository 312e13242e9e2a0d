//! Core data model: league configuration, the uniform client envelope pairing
//! a configuration with one provider adapter, and the team/matchup records
//! derived from upstream data.

use crate::error::FflError;
use crate::espn::EspnClient;
use crate::sleeper::SleeperClient;
use vstd::prelude::*;

verus! {

/// The closed set of upstream provider flavors.
#[allow(non_camel_case_types)]
#[derive(Debug, Clone, PartialEq, Eq, Structural)]
pub enum LeagueType {
    ESPN,
    SLEEPER,
}

/// Immutable per-league configuration, loaded once at startup.
#[derive(Debug)]
pub struct LeagueConfig {
    /// The league's display name.
    pub league_name: String,
    /// Which provider flavor serves this league.
    pub league_type: LeagueType,
    /// The provider-native league identifier.
    pub league_id: String,
    /// The chat-grouping identifier used for implicit resolution.
    pub discord_category_id: String,
    /// The short name used for explicit resolution.
    pub short_name: String,
}

/// One fantasy team: its provider-native id, its display name and its owner's
/// display name.
#[derive(Debug)]
pub struct FantasyTeam {
    pub id: String,
    pub team_name: String,
    pub owner_name: String,
}

/// One matchup of a given week. Scores are in hundredths of a point and are
/// absent before the matchup is played.
#[derive(Debug)]
pub struct FantasyMatchup {
    pub team1: FantasyTeam,
    pub team2: FantasyTeam,
    pub score1: Option<u64>,
    pub score2: Option<u64>,
    pub week_num: u32,
}

/// Exactly one provider adapter, matching the closed provider enumeration.
#[allow(non_camel_case_types)]
#[derive(Debug)]
pub enum FflClientType {
    ESPN(EspnClient),
    SLEEPER(SleeperClient),
}

/// The uniform envelope the rest of the system operates on: one league's
/// configuration together with the one adapter that serves it.
#[derive(Debug)]
pub struct FflClient {
    pub config: LeagueConfig,
    pub client_type: FflClientType,
}

impl FflClient {
    /// The adapter variant matches the configuration's provider type.
    pub open spec fn wf(&self) -> bool {
        match self.client_type {
            FflClientType::ESPN(_) => self.config.league_type == LeagueType::ESPN,
            FflClientType::SLEEPER(_) => self.config.league_type == LeagueType::SLEEPER,
        }
    }

    /// Pairs a configuration with an adapter, rejecting a pair whose provider
    /// types disagree.
    pub fn new(config: LeagueConfig, client_type: FflClientType) -> (r: Result<
        FflClient,
        FflError,
    >)
        ensures
            match r {
                Ok(c) => c.config == config && c.client_type == client_type && c.wf(),
                Err(e) => e == FflError::MismatchedProvider && !(FflClient {
                    config,
                    client_type,
                }).wf(),
            },
    {
        let matched = match &client_type {
            FflClientType::ESPN(_) => config.league_type == LeagueType::ESPN,
            FflClientType::SLEEPER(_) => config.league_type == LeagueType::SLEEPER,
        };
        if matched {
            Ok(FflClient { config, client_type })
        } else {
            Err(FflError::MismatchedProvider)
        }
    }
}

} // verus!
