//! Priced listings: the record the processor persists for each qualifying
//! item, and the extractor that turns a free-text note into an exact listed
//! price and a currency.
use vstd::prelude::*;

verus! {

use vstd::string::StringExecFns;
use crate::note::{
    find_price_match, groups_ok, groups_value, price_match, ratio_of_capture, Ratio,
};
use crate::poe::item::Item;
use crate::text::{chars_to_string, str_eq, str_to_chars};

/// The trade denominations a listing may name; every token outside the
/// closed map reads as `Unknown`.
#[derive(Debug, Clone, Copy, PartialEq, Eq, Structural)]
pub enum ListingCurrency {
    ChaosOrb,
    DivineOrb,
    ExaltedOrb,
    AwakenedSextant,
    MirrorOfKalandra,
    AlchemyOrb,
    FusingOrb,
    AnnulmentOrb,
    ChanceOrb,
    AlterationOrb,
    ScouringOrb,
    RegalOrb,
    Unknown,
}

/// The currency a note token names.
pub open spec fn spec_currency_of(s: Seq<char>) -> ListingCurrency {
    if s == "exa"@ {
        ListingCurrency::ExaltedOrb
    } else if s == "divine"@ {
        ListingCurrency::DivineOrb
    } else if s == "chaos"@ {
        ListingCurrency::ChaosOrb
    } else if s == "awakened-sextant"@ {
        ListingCurrency::AwakenedSextant
    } else if s == "mirror"@ {
        ListingCurrency::MirrorOfKalandra
    } else if s == "alch"@ {
        ListingCurrency::AlchemyOrb
    } else if s == "fusing"@ {
        ListingCurrency::FusingOrb
    } else if s == "annul"@ {
        ListingCurrency::AnnulmentOrb
    } else if s == "chance"@ {
        ListingCurrency::ChanceOrb
    } else if s == "alt"@ {
        ListingCurrency::AlterationOrb
    } else if s == "scour"@ {
        ListingCurrency::ScouringOrb
    } else if s == "regal"@ {
        ListingCurrency::RegalOrb
    } else {
        ListingCurrency::Unknown
    }
}

/// The token a currency serializes back to; `Unknown` writes as `unknown`.
pub open spec fn spec_currency_token(c: ListingCurrency) -> Seq<char> {
    match c {
        ListingCurrency::ChaosOrb => "chaos"@,
        ListingCurrency::DivineOrb => "divine"@,
        ListingCurrency::ExaltedOrb => "exa"@,
        ListingCurrency::AwakenedSextant => "awakened-sextant"@,
        ListingCurrency::MirrorOfKalandra => "mirror"@,
        ListingCurrency::AlchemyOrb => "alch"@,
        ListingCurrency::FusingOrb => "fusing"@,
        ListingCurrency::AnnulmentOrb => "annul"@,
        ListingCurrency::ChanceOrb => "chance"@,
        ListingCurrency::AlterationOrb => "alt"@,
        ListingCurrency::ScouringOrb => "scour"@,
        ListingCurrency::RegalOrb => "regal"@,
        ListingCurrency::Unknown => "unknown"@,
    }
}

impl ListingCurrency {
    /// Reads a note token into the closed currency set.
    pub fn from(value: &str) -> (c: Self)
        ensures
            c == spec_currency_of(value@),
    {
        if str_eq(value, "exa") {
            ListingCurrency::ExaltedOrb
        } else if str_eq(value, "divine") {
            ListingCurrency::DivineOrb
        } else if str_eq(value, "chaos") {
            ListingCurrency::ChaosOrb
        } else if str_eq(value, "awakened-sextant") {
            ListingCurrency::AwakenedSextant
        } else if str_eq(value, "mirror") {
            ListingCurrency::MirrorOfKalandra
        } else if str_eq(value, "alch") {
            ListingCurrency::AlchemyOrb
        } else if str_eq(value, "fusing") {
            ListingCurrency::FusingOrb
        } else if str_eq(value, "annul") {
            ListingCurrency::AnnulmentOrb
        } else if str_eq(value, "chance") {
            ListingCurrency::ChanceOrb
        } else if str_eq(value, "alt") {
            ListingCurrency::AlterationOrb
        } else if str_eq(value, "scour") {
            ListingCurrency::ScouringOrb
        } else if str_eq(value, "regal") {
            ListingCurrency::RegalOrb
        } else {
            ListingCurrency::Unknown
        }
    }

    /// Writes the currency back as its storage token.
    pub fn to_string(&self) -> (s: String)
        ensures
            s@ == spec_currency_token(*self),
    {
        match self {
            ListingCurrency::ChaosOrb => String::from_str("chaos"),
            ListingCurrency::DivineOrb => String::from_str("divine"),
            ListingCurrency::ExaltedOrb => String::from_str("exa"),
            ListingCurrency::AwakenedSextant => String::from_str("awakened-sextant"),
            ListingCurrency::MirrorOfKalandra => String::from_str("mirror"),
            ListingCurrency::AlchemyOrb => String::from_str("alch"),
            ListingCurrency::FusingOrb => String::from_str("fusing"),
            ListingCurrency::AnnulmentOrb => String::from_str("annul"),
            ListingCurrency::ChanceOrb => String::from_str("chance"),
            ListingCurrency::AlterationOrb => String::from_str("alt"),
            ListingCurrency::ScouringOrb => String::from_str("scour"),
            ListingCurrency::RegalOrb => String::from_str("regal"),
            ListingCurrency::Unknown => String::from_str("unknown"),
        }
    }
}

/// Law: reading a known currency token and writing it back returns the
/// token unchanged, and an unknown token stays `Unknown` however often it
/// makes the round trip.
pub proof fn lemma_currency_round_trip(s: Seq<char>)
    ensures
        spec_currency_of(s) != ListingCurrency::Unknown ==> spec_currency_token(
            spec_currency_of(s),
        ) == s,
        spec_currency_of(s) == ListingCurrency::Unknown ==> spec_currency_of(
            spec_currency_token(ListingCurrency::Unknown),
        ) == ListingCurrency::Unknown,
{
    reveal_strlit("exa");
    reveal_strlit("divine");
    reveal_strlit("chaos");
    reveal_strlit("awakened-sextant");
    reveal_strlit("mirror");
    reveal_strlit("alch");
    reveal_strlit("fusing");
    reveal_strlit("annul");
    reveal_strlit("chance");
    reveal_strlit("alt");
    reveal_strlit("scour");
    reveal_strlit("regal");
    reveal_strlit("unknown");
    assert("unknown"@.len() == 7);
    assert("exa"@.len() == 3);
    assert("divine"@.len() == 6);
    assert("chaos"@.len() == 5);
    assert("awakened-sextant"@.len() == 16);
    assert("mirror"@.len() == 6);
    assert("alch"@.len() == 4);
    assert("fusing"@.len() == 6);
    assert("annul"@.len() == 5);
    assert("chance"@.len() == 6);
    assert("alt"@.len() == 3);
    assert("scour"@.len() == 5);
    assert("regal"@.len() == 5);
    assert("unknown"@[0] == 'u' && "divine"@[0] == 'd' && "mirror"@[0] == 'm' && "fusing"@[0]
        == 'f' && "chance"@[0] == 'c');
    assert(spec_currency_of("unknown"@) == ListingCurrency::Unknown);
}

/// A listing's price: the exact listed amount and its currency. The
/// chaos-normalized amount is reserved and always zero.
#[derive(Debug, Clone, Copy, PartialEq, Eq, Structural)]
pub struct ComplexPrice {
    /// Reserved: the amount normalized to the chaos equivalent, still zero.
    pub normalized_price: Ratio,
    /// The amount exactly as listed.
    pub listed_price: Ratio,
    /// The currency exactly as listed.
    pub listed_currency: ListingCurrency,
}

pub open spec fn zero_ratio() -> Ratio {
    Ratio { numer: 0, denom: 1 }
}

/// Why an item could not become a listing.
#[derive(Debug, Clone, Copy, PartialEq, Eq, Structural)]
pub enum ListingError {
    /// The item carries no stable id.
    MissingId,
    /// The item carries no note.
    MissingNote,
    /// The note does not match the price grammar.
    UnpricedNote,
    /// The note matches, but a number group cannot be read exactly.
    InvalidPrice,
}

/// What extracting a price from a note must return: no grammar match reads
/// as no price; a match whose numbers cannot be read exactly is an error; a
/// readable match gives the exact listed value and the mapped currency.
pub open spec fn price_extraction_ok(
    s: Seq<char>,
    r: Result<Option<ComplexPrice>, ListingError>,
) -> bool {
    match price_match(s) {
        None => r == Result::<Option<ComplexPrice>, ListingError>::Ok(None),
        Some(g) => {
            if groups_ok(g) {
                r matches Ok(Some(p)) && p.normalized_price == zero_ratio() && (
                p.listed_price.numer as int, p.listed_price.denom as int) == groups_value(g)
                    && p.listed_price.denom >= 1 && p.listed_currency == spec_currency_of(g.cur)
            } else {
                r == Result::<Option<ComplexPrice>, ListingError>::Err(ListingError::InvalidPrice)
            }
        },
    }
}

/// Extracts the listed price from a note: the leftmost grammar occurrence,
/// its number read exactly, its token mapped over the closed currency set.
pub fn note_to_complex_price(note: &str) -> (r: Result<Option<ComplexPrice>, ListingError>)
    ensures
        price_extraction_ok(note@, r),
{
    let chars = str_to_chars(note);
    match find_price_match(&chars) {
        None => Ok(None),
        Some(cap) => {
            match ratio_of_capture(&cap) {
                Err(_) => Err(ListingError::InvalidPrice),
                Ok(rat) => {
                    let token = chars_to_string(&cap.cur);
                    let currency = ListingCurrency::from(token.as_str());
                    Ok(
                        Some(
                            ComplexPrice {
                                normalized_price: Ratio { numer: 0, denom: 1 },
                                listed_price: rat,
                                listed_currency: currency,
                            },
                        ),
                    )
                },
            }
        },
    }
}

/// The persisted record of one priced item.
#[derive(Debug, Clone)]
pub struct Listing {
    pub name: String,
    pub item_id: String,
    pub league: String,
    pub price: ComplexPrice,
    pub implicit_mods: Vec<String>,
    pub explicit_mods: Vec<String>,
    /// When this listing was extracted, as unix seconds.
    pub created_at: i64,
}

/// Relies on `time::OffsetDateTime::now_utc` and `unix_timestamp`: the
/// current wall-clock time as unix seconds. Nothing is promised of the
/// value; callers state what holds whatever instant comes back.
#[verifier::external_body]
pub(crate) fn now_unix() -> i64 {
    time::OffsetDateTime::now_utc().unix_timestamp()
}

/// Whether an item can become a listing: it has an id and a note, the note
/// matches the price grammar, and the numbers read exactly.
pub open spec fn spec_listing_ok(item: Item) -> bool {
    match (item.id, item.note) {
        (Some(id), Some(note)) => match price_match(note@) {
            Some(g) => groups_ok(g),
            None => false,
        },
        _ => false,
    }
}

/// How a produced listing relates to the item it came from, at extraction
/// time `now`: names and ids carry over, a missing league falls back to the
/// configured current league, the price is the note's exact extraction, and
/// the mod lists keep their upstream order.
pub open spec fn listing_matches_item(l: Listing, item: Item, now: i64) -> bool {
    &&& item.id is Some
    &&& item.note is Some
    &&& l.name@ == item.name@
    &&& l.item_id@ == item.id->0@
    &&& (match item.league {
        Some(lg) => l.league@ == lg@,
        None => l.league@ == "Affliction"@,
    })
    &&& (match price_match(item.note->0@) {
        Some(g) => groups_ok(g) && l.price.normalized_price == zero_ratio() && (
        l.price.listed_price.numer as int, l.price.listed_price.denom as int) == groups_value(g)
            && l.price.listed_currency == spec_currency_of(g.cur),
        None => false,
    })
    &&& (match item.implicit_mods {
        Some(m) => l.implicit_mods@ == m@,
        None => l.implicit_mods@ == Seq::<String>::empty(),
    })
    &&& (match item.explicit_mods {
        Some(m) => l.explicit_mods@ == m@,
        None => l.explicit_mods@ == Seq::<String>::empty(),
    })
    &&& l.created_at == now
}

impl Listing {
    /// An empty listing stamped with the current time.
    pub fn new() -> (l: Self)
        ensures
            l.name@ == Seq::<char>::empty(),
            l.item_id@ == Seq::<char>::empty(),
            l.league@ == Seq::<char>::empty(),
            l.price == (ComplexPrice {
                normalized_price: zero_ratio(),
                listed_price: zero_ratio(),
                listed_currency: ListingCurrency::Unknown,
            }),
            l.implicit_mods@ == Seq::<String>::empty(),
            l.explicit_mods@ == Seq::<String>::empty(),
    {
        Listing {
            name: String::new(),
            item_id: String::new(),
            league: String::new(),
            price: ComplexPrice {
                normalized_price: Ratio { numer: 0, denom: 1 },
                listed_price: Ratio { numer: 0, denom: 1 },
                listed_currency: ListingCurrency::Unknown,
            },
            implicit_mods: Vec::new(),
            explicit_mods: Vec::new(),
            created_at: now_unix(),
        }
    }

    /// Extracts a listing from an item, stamped `now`.
    pub fn from_item_at(item: Item, now: i64) -> (r: Result<Self, ListingError>)
        ensures
            r is Ok <==> spec_listing_ok(item),
            r matches Ok(l) ==> listing_matches_item(l, item, now),
            item.id is None ==> r == Result::<Listing, ListingError>::Err(ListingError::MissingId),
            item.id is Some && item.note is None ==> r == Result::<Listing, ListingError>::Err(
                ListingError::MissingNote,
            ),
            item.id is Some && item.note is Some && price_match(item.note->0@) is None ==> r
                == Result::<Listing, ListingError>::Err(ListingError::UnpricedNote),
            (match (item.id, item.note) {
                (Some(id), Some(note)) => match price_match(note@) {
                    Some(g) => !groups_ok(g) ==> r == Result::<Listing, ListingError>::Err(
                        ListingError::InvalidPrice,
                    ),
                    None => true,
                },
                _ => true,
            }),
    {
        let Item { id, name, note, league, frame_type: _, implicit_mods, explicit_mods } = item;
        let id = match id {
            Some(id) => id,
            None => {
                return Err(ListingError::MissingId);
            },
        };
        let note = match note {
            Some(n) => n,
            None => {
                return Err(ListingError::MissingNote);
            },
        };
        let chars = str_to_chars(note.as_str());
        let cap = match find_price_match(&chars) {
            Some(c) => c,
            None => {
                return Err(ListingError::UnpricedNote);
            },
        };
        let rat = match ratio_of_capture(&cap) {
            Ok(r) => r,
            Err(_) => {
                return Err(ListingError::InvalidPrice);
            },
        };
        let token = chars_to_string(&cap.cur);
        let currency = ListingCurrency::from(token.as_str());
        let league = match league {
            Some(l) => l,
            None => String::from_str("Affliction"),
        };
        let implicit_mods = match implicit_mods {
            Some(m) => m,
            None => Vec::new(),
        };
        let explicit_mods = match explicit_mods {
            Some(m) => m,
            None => Vec::new(),
        };
        Ok(
            Listing {
                name,
                item_id: id,
                league,
                price: ComplexPrice {
                    normalized_price: Ratio { numer: 0, denom: 1 },
                    listed_price: rat,
                    listed_currency: currency,
                },
                implicit_mods,
                explicit_mods,
                created_at: now,
            },
        )
    }

    /// Extracts a listing from an item, stamped with the current time.
    pub fn try_from(item: Item) -> (r: Result<Self, ListingError>)
        ensures
            r is Ok <==> spec_listing_ok(item),
            r matches Ok(l) ==> listing_matches_item(l, item, l.created_at),
            item.id is None ==> r == Result::<Listing, ListingError>::Err(ListingError::MissingId),
            item.id is Some && item.note is None ==> r == Result::<Listing, ListingError>::Err(
                ListingError::MissingNote,
            ),
            item.id is Some && item.note is Some && price_match(item.note->0@) is None ==> r
                == Result::<Listing, ListingError>::Err(ListingError::UnpricedNote),
    {
        let now = now_unix();
        Self::from_item_at(item, now)
    }
}

impl Default for Listing {
    /// An empty listing, as `new` builds it.
    fn default() -> (l: Self)
        ensures
            l.name@ == Seq::<char>::empty(),
            l.item_id@ == Seq::<char>::empty(),
            l.league@ == Seq::<char>::empty(),
            l.price == (ComplexPrice {
                normalized_price: zero_ratio(),
                listed_price: zero_ratio(),
                listed_currency: ListingCurrency::Unknown,
            }),
            l.implicit_mods@ == Seq::<String>::empty(),
            l.explicit_mods@ == Seq::<String>::empty(),
    {
        Listing::new()
    }
}


/// Law: extracting from a note that lists a plain decimal price `N` in
/// token `cur` succeeds and yields exactly the fraction `N` is, with the
/// token's currency — for every decimal whose exact reading fits.
pub proof fn lemma_decimal_note_price(
    d: Seq<char>,
    cur: Seq<char>,
    r: Result<Option<ComplexPrice>, ListingError>,
)
    requires
        crate::note::dec_ok(d),
        crate::note::token_valid(cur),
        price_extraction_ok(crate::note::decimal_note(d, cur), r),
    ensures
        r matches Ok(po) && po matches Some(p) && p.listed_price.numer as int
            == crate::note::dec_num(d) && p.listed_price.denom as int == crate::note::dec_den(d)
            && p.listed_currency == spec_currency_of(cur) && p.normalized_price == zero_ratio(),
{
    crate::note::lemma_decimal_note_match(d, cur);
}

/// Law: extracting from a note that lists a rational price `X/Y` in token
/// `cur` succeeds and yields exactly X divided by Y when Y is positive, and
/// the zero price when Y is zero — for every pair of decimals whose exact
/// reading fits.
pub proof fn lemma_rational_note_price(
    x: Seq<char>,
    y: Seq<char>,
    cur: Seq<char>,
    r: Result<Option<ComplexPrice>, ListingError>,
)
    requires
        crate::note::dec_ok(x),
        crate::note::dec_ok(y),
        crate::note::dec_num(y) > 0 ==> crate::note::dec_num(x) * crate::note::dec_den(y)
            <= u64::MAX && crate::note::dec_den(x) * crate::note::dec_num(y) <= u64::MAX,
        crate::note::token_valid(cur),
        price_extraction_ok(crate::note::rational_note(x, y, cur), r),
    ensures
        r matches Ok(po) && po matches Some(p) && p.listed_currency == spec_currency_of(cur)
            && p.normalized_price == zero_ratio(),
        crate::note::dec_num(y) > 0 ==> (r matches Ok(po) && po matches Some(p)
            && p.listed_price.numer as int == crate::note::dec_num(x) * crate::note::dec_den(y)
            && p.listed_price.denom as int == crate::note::dec_den(x) * crate::note::dec_num(y)),
        crate::note::dec_num(y) == 0 ==> (r matches Ok(po) && po matches Some(p)
            && p.listed_price.numer == 0 && p.listed_price.denom == 1),
{
    crate::note::lemma_rational_note_match(x, y, cur);
}

} // verus!
