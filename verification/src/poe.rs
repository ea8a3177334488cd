//! Schema of the upstream game model: the typed shapes the public API
//! returns, with the enumerations closed over the variants the API names.
pub mod account;
pub mod character;
pub mod errorcode;
pub mod filter;
pub mod guild;
pub mod item;
pub mod ladder;
pub mod league;
pub mod passives;
pub mod pvp;
pub mod stash;
