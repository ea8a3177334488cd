//! Guilds as the upstream API lists them.
use vstd::prelude::*;

verus! {

#[derive(Debug, Clone)]
pub struct Guild {
    pub id: usize,
    pub name: String,
    pub tag: String,
    pub points: Option<usize>,
    pub status_message: Option<String>,
    pub created_at: String,
}

} // verus!
