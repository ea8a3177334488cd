//! Ladder entries for leagues, events and delves.
use vstd::prelude::*;

verus! {

use crate::poe::account::Account;

#[derive(Debug, Clone)]
pub struct DelveLadderEntry {
    pub default: Option<usize>,
    pub solo: Option<usize>,
}

#[derive(Debug, Clone)]
pub struct LadderCharacter {
    pub id: String,
    pub name: String,
    pub level: usize,
    pub class: String,
    pub time: Option<usize>,
    pub score: Option<usize>,
    pub experience: Option<usize>,
    pub depth: Option<DelveLadderEntry>,
    pub account: Option<Account>,
}

#[derive(Debug, Clone)]
pub struct LadderEntry {
    pub rank: usize,
    pub dead: Option<bool>,
    pub retired: Option<bool>,
    pub ineligible: Option<bool>,
    pub public: Option<bool>,
    pub character: LadderCharacter,
    pub account: Option<Account>,
}

#[derive(Debug, Clone)]
pub struct EventPrivateLeague {
    pub name: String,
    pub url: String,
}

#[derive(Debug, Clone)]
pub struct EventLadderEntry {
    pub rank: usize,
    pub ineligible: Option<bool>,
    pub time: Option<usize>,
    pub private_league: Option<EventPrivateLeague>,
}

} // verus!
