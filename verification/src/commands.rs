//! Per-command logic: command parsing, the placeholder replies, the illness
//! list, and the power-rankings decision and formatting.
//!
//! Each handler is a pure function from already-fetched data to the reply
//! text; the surrounding program resolves the league, performs any fetch the
//! handler asks for, and delivers the reply.

use crate::fantasy::{FflClient, LeagueType};
use crate::text::{join_strings, replace_all, spec_join, spec_replace, str_eq};
use vstd::prelude::*;
use vstd::string::StringExecFns;

verus! {

/// Ranks at or above this sentinel mean the rank is effectively unknown.
pub const RANK_SENTINEL: u64 = 9999999;

/// The commands the transport can dispatch to the core.
#[derive(Debug, Clone, Copy, PartialEq, Eq, Structural)]
pub enum Command {
    Matchups,
    Standings,
    Power,
    Illness,
}

/// The command a transport-level command name denotes.
pub open spec fn spec_parse_command(n: Seq<char>) -> Option<Command> {
    if n == "matchups"@ {
        Some(Command::Matchups)
    } else if n == "standings"@ {
        Some(Command::Standings)
    } else if n == "power"@ {
        Some(Command::Power)
    } else if n == "whosgotcovid"@ {
        Some(Command::Illness)
    } else {
        None
    }
}

/// Maps a transport-level command name to the command it denotes.
pub fn parse_command(name: &str) -> (r: Option<Command>)
    ensures
        r == spec_parse_command(name@),
{
    if str_eq(name, "matchups") {
        Some(Command::Matchups)
    } else if str_eq(name, "standings") {
        Some(Command::Standings)
    } else if str_eq(name, "power") {
        Some(Command::Power)
    } else if str_eq(name, "whosgotcovid") {
        Some(Command::Illness)
    } else {
        None
    }
}

/// Whether a command needs no resolved league.
pub fn is_league_independent(c: Command) -> (r: bool)
    ensures
        r == (c == Command::Illness),
{
    match c {
        Command::Illness => true,
        _ => false,
    }
}

/// The matchups command currently answers with fixed placeholder text,
/// whatever client was resolved.
pub fn handle_matchups() -> (r: String)
    ensures
        r@ == "```\nthis is a matchups response\n```"@,
{
    String::from_str("```\nthis is a matchups response\n```")
}

/// The standings command currently answers with fixed placeholder text,
/// whatever client was resolved.
pub fn handle_standings() -> (r: String)
    ensures
        r@ == "```\nthis is a standings response\n```"@,
{
    String::from_str("```\nthis is a standings response\n```")
}

/// One record of the illness document: a player's name and team, with an
/// optional start date and an optional rank.
#[derive(Debug)]
pub struct IllnessRecord {
    pub full_name: String,
    pub team: String,
    pub start_date: Option<String>,
    pub search_rank: Option<u64>,
}

/// A record is listed exactly when its rank is known at all: present and below
/// the sentinel.
pub open spec fn illness_qualifies(p: IllnessRecord) -> bool {
    match p.search_rank {
        Some(r) => r < RANK_SENTINEL,
        None => false,
    }
}

/// The reply line for one listed record: name and team, with the start date in
/// parentheses when present.
pub open spec fn spec_illness_line(p: IllnessRecord) -> Seq<char> {
    p.full_name@ + ", "@ + p.team@ + match p.start_date {
        Some(d) => " ("@ + d@ + ")"@,
        None => Seq::<char>::empty(),
    }
}

/// The reply lines of the qualifying records, in input order.
pub open spec fn spec_illness_lines(s: Seq<IllnessRecord>) -> Seq<Seq<char>>
    decreases s.len(),
{
    if s.len() == 0 {
        Seq::empty()
    } else if illness_qualifies(s.last()) {
        spec_illness_lines(s.drop_last()).push(spec_illness_line(s.last()))
    } else {
        spec_illness_lines(s.drop_last())
    }
}

/// Formats the illness list: one line per record whose rank is known, or the
/// fixed nobody message when no record qualifies.
pub fn format_illness_list(players: &Vec<IllnessRecord>) -> (r: String)
    ensures
        r@ == if spec_illness_lines(players@).len() == 0 {
            "```\nNobody, apparently.\n```"@
        } else {
            "```"@ + spec_join(spec_illness_lines(players@), "\n"@) + "```"@
        },
{
    let mut lines: Vec<String> = Vec::new();
    let mut i: usize = 0;
    while i < players.len()
        invariant
            i <= players@.len(),
            lines.deep_view() == spec_illness_lines(players@.take(i as int)),
        decreases players@.len() - i,
    {
        let p = &players[i];
        let qualifies = match &p.search_rank {
            Some(r) => *r < RANK_SENTINEL,
            None => false,
        };
        let ghost lines_before = lines.deep_view();
        if qualifies {
            let mut line = p.full_name.clone();
            line.append(", ");
            line.append(p.team.as_str());
            match &p.start_date {
                Some(d) => {
                    line.append(" (");
                    line.append(d.as_str());
                    line.append(")");
                },
                None => {},
            }
            proof {
                assert(line@ =~= spec_illness_line(players@[i as int]));
            }
            lines.push(line);
        }
        i = i + 1;
        proof {
            assert(players@.take(i as int).drop_last() =~= players@.take(i - 1));
            assert(players@.take(i as int).last() == players@[i - 1]);
            if qualifies {
                assert(lines.deep_view() =~= lines_before.push(
                    spec_illness_line(players@[i - 1]),
                ));
            } else {
                assert(lines.deep_view() =~= lines_before);
            }
        }
    }
    proof {
        assert(players@.take(players@.len() as int) =~= players@);
    }
    if lines.len() == 0 {
        String::from_str("```\nNobody, apparently.\n```")
    } else {
        let joined = join_strings(&lines, "\n");
        let mut r = String::from_str("```");
        r.append(joined.as_str());
        r.append("```");
        r
    }
}

/// One entry of the power-rankings document: a team and its score, as the
/// upstream renders it.
#[derive(Debug)]
pub struct TeamPower {
    pub power: String,
    pub team: String,
}

/// The reply line for one power entry.
pub open spec fn spec_power_line(t: TeamPower) -> Seq<char> {
    t.team@ + " ("@ + t.power@ + ")"@
}

/// The reply lines of the power entries, in upstream order.
pub open spec fn spec_power_lines(s: Seq<TeamPower>) -> Seq<Seq<char>>
    decreases s.len(),
{
    if s.len() == 0 {
        Seq::empty()
    } else {
        spec_power_lines(s.drop_last()).push(spec_power_line(s.last()))
    }
}

/// Formats the power rankings: one line per entry, an update trailer, and the
/// code-block frame.
pub fn format_power_rankings(power: &Vec<TeamPower>, updated: &str) -> (r: String)
    ensures
        r@ == "```\n"@ + spec_join(
            spec_power_lines(power@).push("\nupdated "@ + updated@),
            "\n"@,
        ) + "\n```"@,
{
    let mut lines: Vec<String> = Vec::new();
    let mut i: usize = 0;
    while i < power.len()
        invariant
            i <= power@.len(),
            lines.deep_view() == spec_power_lines(power@.take(i as int)),
        decreases power@.len() - i,
    {
        let t = &power[i];
        let mut line = t.team.clone();
        line.append(" (");
        line.append(t.power.as_str());
        line.append(")");
        proof {
            assert(line@ =~= spec_power_line(power@[i as int]));
        }
        let ghost lines_before = lines.deep_view();
        lines.push(line);
        i = i + 1;
        proof {
            assert(power@.take(i as int).drop_last() =~= power@.take(i - 1));
            assert(power@.take(i as int).last() == power@[i - 1]);
            assert(lines.deep_view() =~= lines_before.push(spec_power_line(power@[i - 1])));
        }
    }
    proof {
        assert(power@.take(power@.len() as int) =~= power@);
    }
    let mut trailer = String::from_str("\nupdated ");
    trailer.append(updated);
    let ghost lines_before = lines.deep_view();
    lines.push(trailer);
    proof {
        assert(lines.deep_view() =~= lines_before.push("\nupdated "@ + updated@));
    }
    let joined = join_strings(&lines, "\n");
    let mut r = String::from_str("```\n");
    r.append(joined.as_str());
    r.append("\n```");
    r
}

/// What the power-rankings command does for a resolved client: answer at once,
/// or fetch a document from a URL and format it.
#[derive(Debug)]
pub enum PowerAction {
    /// Reply with this text without any fetch.
    Reply(String),
    /// Fetch the power document from this URL, then format it.
    Fetch(String),
}

/// The power-document URL built from the configured template: the league-id
/// and provider-type tokens substituted.
pub open spec fn spec_power_url(fmt: Seq<char>, league_id: Seq<char>) -> Seq<char> {
    spec_replace(spec_replace(fmt, "<LEAGUE_ID>"@, league_id), "<LEAGUE_TYPE>"@, "espn"@)
}

/// Decides the power-rankings command for a resolved client. The
/// roster-service provider has not implemented power rankings: it answers with
/// a fixed placeholder and never asks for a fetch. The alternate provider
/// builds the fetch URL from the configured template.
pub fn power_action(client: &FflClient, url_format: &str) -> (r: PowerAction)
    ensures
        match client.config.league_type {
            LeagueType::SLEEPER => r matches PowerAction::Reply(m) && m@
                == "power rankings for sleeper not implemented yet sorryyyyyyyy"@,
            LeagueType::ESPN => r matches PowerAction::Fetch(u) && u@ == spec_power_url(
                url_format@,
                client.config.league_id@,
            ),
        },
{
    match &client.config.league_type {
        LeagueType::SLEEPER => PowerAction::Reply(
            String::from_str("power rankings for sleeper not implemented yet sorryyyyyyyy"),
        ),
        LeagueType::ESPN => {
            let step = replace_all(url_format, "<LEAGUE_ID>", client.config.league_id.as_str());
            let url = replace_all(step.as_str(), "<LEAGUE_TYPE>", "espn");
            PowerAction::Fetch(url)
        },
    }
}

} // verus!
