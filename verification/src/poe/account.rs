//! Accounts and their public profile attachments.
use vstd::prelude::*;

verus! {

#[derive(Debug, Clone)]
pub struct TwitchStream {
    pub name: String,
    pub image: String,
    pub status: String,
}

#[derive(Debug, Clone)]
pub struct TwitchAccount {
    pub name: String,
    pub stream: Option<TwitchStream>,
}

#[derive(Debug, Clone)]
pub struct ChallengeSet {
    pub set: String,
    pub completed: usize,
    pub max: usize,
}

#[derive(Debug, Clone)]
pub struct Account {
    pub name: String,
    pub realm: Option<String>,
    pub guild: Option<crate::poe::guild::Guild>,
    pub challenges: Option<ChallengeSet>,
    pub twitch: Option<TwitchAccount>,
}

} // verus!
