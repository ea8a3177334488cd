//! Public stash changes, the envelope the change stream delivers.
use vstd::prelude::*;

verus! {

use crate::poe::item::Item;

/// One entry of the public stash-change stream: whose stash changed, in
/// which league, and the items it now holds. The wire layer decodes the
/// upstream JSON into this shape.
#[derive(Debug, Clone)]
pub struct PublicStashChange {
    pub id: String,
    pub public: bool,
    pub account_name: Option<String>,
    pub stash: Option<String>,
    pub stash_type: String,
    pub league: Option<String>,
    pub items: Vec<Item>,
}

#[derive(Debug, Clone)]
pub struct StashTabMetadata {
    pub public: Option<bool>,
    pub folder: Option<bool>,
    pub colour: Option<String>,
}

} // verus!
