//! The record-store handle's fixed configuration. The store itself is an
//! outside service; its connection and queries live at the boundary, which
//! reads the table name from here.
use vstd::prelude::*;

verus! {

use vstd::string::StringExecFns;

/// Where item listings live in the record store.
#[derive(Debug, Clone)]
pub struct SurrealDatastore {
    pub listings_table: String,
}

impl SurrealDatastore {
    /// A handle aimed at the item-listings table.
    pub fn new() -> (d: Self)
        ensures
            d.listings_table@ == "item_listings"@,
    {
        SurrealDatastore { listings_table: String::from_str("item_listings") }
    }
}

} // verus!
