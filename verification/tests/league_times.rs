//! The league-info records and their timestamps; instants are handed in as
//! unix seconds.
use poeledger::league::{league_info, LeagueInfo};

#[test]
fn league_start_timestamp() {
    // 2023-12-08 19:00 UTC
    let league = LeagueInfo::new("Affliction", Some(1702062000), None);

    assert_eq!(league.name, "Affliction");
    assert_eq!(league.start_time, Some(1702062000));
    assert_eq!(league.end_time, None);
}

#[test]
fn league_end_timestamp() {
    // 2023-12-08 19:00 UTC and 2024-03-25 00:00 UTC
    let league = LeagueInfo::new("Affliction", Some(1702062000), Some(1711324800));

    assert_eq!(league.name, "Affliction");
    assert_eq!(league.start_time, Some(1702062000));
    assert_eq!(league.end_time, Some(1711324800));
}

#[test]
fn league_info_lists_three_leagues() {
    let leagues = league_info();
    assert_eq!(leagues.len(), 3);
    assert_eq!(leagues[0].name, "Standard");
    assert_eq!(leagues[0].start_time, None);
    assert_eq!(leagues[1].name, "Affliction");
    assert_eq!(leagues[1].start_time, Some(1702062000));
    assert_eq!(leagues[2].name, "Necropolis");
    assert_eq!(leagues[2].end_time, None);
}
