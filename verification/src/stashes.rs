//! The typed body of the public stash-change endpoint.
use vstd::prelude::*;

verus! {

use crate::poe::stash::PublicStashChange;

/// One page of the change stream: the cursor of the next page, and the
/// stash changes of this one.
#[derive(Debug, Clone)]
pub struct PublicStashesResponse {
    pub next_change_id: String,
    pub stashes: Vec<PublicStashChange>,
}

} // verus!
