//! The earlier, narrower listing shape: a smaller currency set, and an item
//! conversion that presumes its inputs instead of reporting them.
use vstd::prelude::*;

verus! {

use crate::note::{
    find_price_match, groups_ok, groups_value, price_match, ratio_of_capture, Ratio,
};
use crate::poe::item::Item;
use crate::text::{chars_to_string, str_eq, str_to_chars};

/// The three denominations this shape distinguishes; everything else is
/// `Unknown`.
#[derive(Debug, Clone, Copy, PartialEq, Eq, Structural)]
pub enum ListCurrency {
    Chaos,
    Divine,
    Exalt,
    Unknown,
}

pub open spec fn spec_list_currency_of(s: Seq<char>) -> ListCurrency {
    if s == "exa"@ {
        ListCurrency::Exalt
    } else if s == "divine"@ {
        ListCurrency::Divine
    } else if s == "chaos"@ {
        ListCurrency::Chaos
    } else {
        ListCurrency::Unknown
    }
}

impl ListCurrency {
    /// Reads a note token into this narrower currency set.
    pub fn from(value: &str) -> (c: Self)
        ensures
            c == spec_list_currency_of(value@),
    {
        if str_eq(value, "exa") {
            ListCurrency::Exalt
        } else if str_eq(value, "divine") {
            ListCurrency::Divine
        } else if str_eq(value, "chaos") {
            ListCurrency::Chaos
        } else {
            ListCurrency::Unknown
        }
    }
}

/// A listing's price in this shape; the normalized amount is reserved and
/// zero.
#[derive(Debug, Clone, Copy, PartialEq, Eq, Structural)]
pub struct ComplexPrice {
    /// Reserved: the amount normalized to the chaos equivalent, still zero.
    pub normalized_value: Ratio,
    /// The amount exactly as listed.
    pub list_price: Ratio,
    /// The currency exactly as listed.
    pub list_currency: ListCurrency,
}

pub open spec fn zero_list_ratio() -> Ratio {
    Ratio { numer: 0, denom: 1 }
}

/// What this extractor returns for a note: nothing when the grammar does
/// not match, else the exact listed value and the mapped currency. A note
/// whose matched numbers cannot be read exactly is outside this function's
/// domain — callers must hand it a readable note.
pub open spec fn item_price_of(s: Seq<char>) -> Option<ComplexPrice> {
    match price_match(s) {
        None => None,
        Some(g) => Some(
            ComplexPrice {
                normalized_value: zero_list_ratio(),
                list_price: Ratio {
                    numer: groups_value(g).0 as u64,
                    denom: groups_value(g).1 as u64,
                },
                list_currency: spec_list_currency_of(g.cur),
            },
        ),
    }
}

/// Extracts the listed price from a note. The caller owes a note whose
/// matched number groups read exactly; on such notes the result is the
/// leftmost match's exact value.
pub fn note_to_complex_price(note: &str) -> (r: Option<ComplexPrice>)
    requires
        price_match(note@) matches Some(g) ==> groups_ok(g),
    ensures
        r == item_price_of(note@),
        r matches Some(p) ==> p.list_price.denom >= 1,
{
    let chars = str_to_chars(note);
    match find_price_match(&chars) {
        None => None,
        Some(cap) => {
            let rat = match ratio_of_capture(&cap) {
                Ok(r) => r,
                Err(_) => {
                    proof {
                        assert(false);
                    }
                    return None;
                },
            };
            let token = chars_to_string(&cap.cur);
            let currency = ListCurrency::from(token.as_str());
            Some(
                ComplexPrice {
                    normalized_value: Ratio { numer: 0, denom: 1 },
                    list_price: rat,
                    list_currency: currency,
                },
            )
        },
    }
}

/// The record this shape persists for one priced item.
#[derive(Debug, Clone)]
pub struct ItemListing {
    pub name: String,
    pub item_id: String,
    pub league: String,
    pub price: ComplexPrice,
    pub implicit_mods: Vec<String>,
    pub explicit_mods: Vec<String>,
}

impl ItemListing {
    /// Converts an item that is known to carry an id, a note and a league;
    /// a note without a price match keeps the zero price.
    pub fn from(item: Item) -> (l: Self)
        requires
            item.id is Some,
            item.note is Some,
            item.league is Some,
            price_match(item.note->0@) matches Some(g) ==> groups_ok(g),
        ensures
            l.name@ == item.name@,
            l.item_id@ == item.id->0@,
            l.league@ == item.league->0@,
            l.price == (match item_price_of(item.note->0@) {
                Some(p) => p,
                None => ComplexPrice {
                    normalized_value: zero_list_ratio(),
                    list_price: zero_list_ratio(),
                    list_currency: ListCurrency::Unknown,
                },
            }),
            (match item.implicit_mods {
                Some(m) => l.implicit_mods@ == m@,
                None => l.implicit_mods@ == Seq::<String>::empty(),
            }),
            (match item.explicit_mods {
                Some(m) => l.explicit_mods@ == m@,
                None => l.explicit_mods@ == Seq::<String>::empty(),
            }),
    {
        let Item { id, name, note, league, frame_type: _, implicit_mods, explicit_mods } = item;
        let id = id.unwrap();
        let note = note.unwrap();
        let league = league.unwrap();
        let price = match note_to_complex_price(note.as_str()) {
            Some(p) => p,
            None => ComplexPrice {
                normalized_value: Ratio { numer: 0, denom: 1 },
                list_price: Ratio { numer: 0, denom: 1 },
                list_currency: ListCurrency::Unknown,
            },
        };
        let implicit_mods = match implicit_mods {
            Some(m) => m,
            None => Vec::new(),
        };
        let explicit_mods = match explicit_mods {
            Some(m) => m,
            None => Vec::new(),
        };
        ItemListing { name, item_id: id, league, price, implicit_mods, explicit_mods }
    }
}

} // verus!
