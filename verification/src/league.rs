//! The league-info endpoint's data: each league's name and its start and
//! end instants as unix timestamps.
use vstd::prelude::*;

verus! {

use vstd::string::StringExecFns;

/// One league's public timing: when it started and ended, if it has.
#[derive(Debug, Clone)]
pub struct LeagueInfo {
    pub name: String,
    pub start_time: Option<i64>,
    pub end_time: Option<i64>,
}

impl LeagueInfo {
    /// Builds the info record for one league from its instants.
    pub fn new(name: &str, start: Option<i64>, end: Option<i64>) -> (info: Self)
        ensures
            info.name@ == name@,
            info.start_time == start,
            info.end_time == end,
    {
        LeagueInfo { name: name.to_owned(), start_time: start, end_time: end }
    }
}

/// The leagues the endpoint lists: the permanent one, and the two most
/// recent challenge leagues with their UTC start instants — and, for the
/// closed one, its end instant.
pub fn league_info() -> (leagues: Vec<LeagueInfo>)
    ensures
        leagues@.len() == 3,
        leagues@[0].name@ == "Standard"@ && leagues@[0].start_time is None
            && leagues@[0].end_time is None,
        leagues@[1].name@ == "Affliction"@ && leagues@[1].start_time == Some(1702062000i64)
            && leagues@[1].end_time == Some(1679864400i64),
        leagues@[2].name@ == "Necropolis"@ && leagues@[2].start_time == Some(1711735200i64)
            && leagues@[2].end_time is None,
{
    let mut leagues: Vec<LeagueInfo> = Vec::new();
    leagues.push(LeagueInfo::new("Standard", None, None));
    // 2023-12-08 19:00 UTC to 2023-03-26 21:00 UTC, as announced upstream
    leagues.push(LeagueInfo::new("Affliction", Some(1702062000), Some(1679864400)));
    // 2024-03-29 18:00 UTC
    leagues.push(LeagueInfo::new("Necropolis", Some(1711735200), None));
    leagues
}

} // verus!
