//! Verified core of a game-economy ingestion pipeline: a rate-limit policy
//! model shared by crawler replicas, the crawl/process message-flow decisions,
//! the priced-listing extractor, and the price-history query builder.
pub mod client;
pub mod crawler;
pub mod datastore;
pub mod db;
pub mod economy;
pub mod fetch;
pub mod history;
pub mod item;
pub mod limiter;
pub mod listing;
pub mod local;
pub mod note;
pub mod league;
pub mod poe;
pub mod prices;
pub mod remote;
pub mod processor;
pub mod search;
pub mod stashes;
pub mod text;
pub mod utils;

use vstd::prelude::*;

verus! {

} // verus!
