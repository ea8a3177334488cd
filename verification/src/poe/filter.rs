//! Item filters and their validation state.
use vstd::prelude::*;

verus! {

#[derive(Debug, Clone, PartialEq, Eq, Structural)]
pub enum FilterType {
    Normal,
    Ruthless,
}

#[derive(Debug, Clone)]
pub struct FilterValidation {
    pub valid: bool,
    pub version: Option<String>,
    pub validated: Option<String>,
}

#[derive(Debug, Clone)]
pub struct ItemFilter {
    pub id: String,
    pub filter_name: String,
    pub realm: String,
    pub description: String,
    pub version: String,
    pub kind: FilterType,
    pub public: Option<bool>,
    pub filter: Option<String>,
    pub validation: Option<FilterValidation>,
}

} // verus!
