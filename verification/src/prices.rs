//! The prices endpoint's query: its parameters, their defaults, and the
//! sanitized filter values the handler sends to the document store.
use vstd::prelude::*;

verus! {

use vstd::string::StringExecFns;
use crate::utils::{sanitize_mongo_string, spec_sanitize};

/// The optional query parameters of the prices endpoint; the boundary
/// decodes the query string and treats an empty value as absent.
#[derive(Debug, Clone)]
pub struct PricesQuery {
    pub name: Option<String>,
    pub league: Option<String>,
}

/// Resolves the query into the `(name, league)` filter pair: a supplied
/// value is sanitized, a missing one falls back to the default item and the
/// default league.
pub fn resolve_prices_query(q: PricesQuery) -> (r: (String, String))
    ensures
        (match q.name {
            Some(n) => r.0@ == spec_sanitize(n@),
            None => r.0@ == "Divine Orb"@,
        }),
        (match q.league {
            Some(l) => r.1@ == spec_sanitize(l@),
            None => r.1@ == "Sanctum"@,
        }),
{
    let name = match q.name {
        Some(n) => sanitize_mongo_string(n),
        None => String::from_str("Divine Orb"),
    };
    let league = match q.league {
        Some(l) => sanitize_mongo_string(l),
        None => String::from_str("Sanctum"),
    };
    (name, league)
}

} // verus!
