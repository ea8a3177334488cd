//! The economy snapshots' closed vocabularies: named leagues, confidence
//! grades and link counts, each with its exact wire token.
use vstd::prelude::*;

verus! {

use vstd::string::StringExecFns;
use crate::text::str_eq;

/// What can go wrong reading an economy token.
#[derive(Debug, Clone, Copy, PartialEq, Eq, Structural)]
pub enum Error {
    UnknownLeague,
    UnknownConfidence,
    UnknownItemLinks,
}

/// The named leagues economy snapshots cover.
#[derive(Debug, Clone, Copy, PartialEq, Eq, Structural)]
pub enum League {
    Crucible,
    Sanctum,
    Kalandra,
    Sentinel,
    Archnemesis,
    Scourge,
    Expedition,
    Ultimatum,
    Ritual,
    Heist,
}

pub open spec fn spec_league_of(s: Seq<char>) -> Option<League> {
    if s == "Crucible"@ {
        Some(League::Crucible)
    } else if s == "Sanctum"@ {
        Some(League::Sanctum)
    } else if s == "Kalandra"@ {
        Some(League::Kalandra)
    } else if s == "Sentinel"@ {
        Some(League::Sentinel)
    } else if s == "Archnemesis"@ {
        Some(League::Archnemesis)
    } else if s == "Scourge"@ {
        Some(League::Scourge)
    } else if s == "Expedition"@ {
        Some(League::Expedition)
    } else if s == "Ultimatum"@ {
        Some(League::Ultimatum)
    } else if s == "Ritual"@ {
        Some(League::Ritual)
    } else if s == "Heist"@ {
        Some(League::Heist)
    } else {
        None
    }
}

pub open spec fn spec_league_token(l: League) -> Seq<char> {
    match l {
        League::Crucible => "Crucible"@,
        League::Sanctum => "Sanctum"@,
        League::Kalandra => "Kalandra"@,
        League::Sentinel => "Sentinel"@,
        League::Archnemesis => "Archnemesis"@,
        League::Scourge => "Scourge"@,
        League::Expedition => "Expedition"@,
        League::Ultimatum => "Ultimatum"@,
        League::Ritual => "Ritual"@,
        League::Heist => "Heist"@,
    }
}

impl League {
    /// Reads a league name; a name outside the closed set is an error.
    pub fn from_str(s: &str) -> (r: Result<Self, Error>)
        ensures
            r is Ok <==> spec_league_of(s@) is Some,
            r matches Ok(l) ==> spec_league_of(s@) == Some(l),
            r matches Err(e) ==> e == Error::UnknownLeague,
    {
        if str_eq(s, "Crucible") {
            Ok(League::Crucible)
        } else if str_eq(s, "Sanctum") {
            Ok(League::Sanctum)
        } else if str_eq(s, "Kalandra") {
            Ok(League::Kalandra)
        } else if str_eq(s, "Sentinel") {
            Ok(League::Sentinel)
        } else if str_eq(s, "Archnemesis") {
            Ok(League::Archnemesis)
        } else if str_eq(s, "Scourge") {
            Ok(League::Scourge)
        } else if str_eq(s, "Expedition") {
            Ok(League::Expedition)
        } else if str_eq(s, "Ultimatum") {
            Ok(League::Ultimatum)
        } else if str_eq(s, "Ritual") {
            Ok(League::Ritual)
        } else if str_eq(s, "Heist") {
            Ok(League::Heist)
        } else {
            Err(Error::UnknownLeague)
        }
    }

    /// Writes the league back as its name.
    pub fn to_string(&self) -> (s: String)
        ensures
            s@ == spec_league_token(*self),
    {
        match self {
            League::Crucible => String::from_str("Crucible"),
            League::Sanctum => String::from_str("Sanctum"),
            League::Kalandra => String::from_str("Kalandra"),
            League::Sentinel => String::from_str("Sentinel"),
            League::Archnemesis => String::from_str("Archnemesis"),
            League::Scourge => String::from_str("Scourge"),
            League::Expedition => String::from_str("Expedition"),
            League::Ultimatum => String::from_str("Ultimatum"),
            League::Ritual => String::from_str("Ritual"),
            League::Heist => String::from_str("Heist"),
        }
    }
}

/// The confidence grades a snapshot row carries.
#[derive(Debug, Clone, Copy, PartialEq, Eq, Structural)]
pub enum Confidence {
    High,
    Medium,
    Low,
}

pub open spec fn spec_confidence_of(s: Seq<char>) -> Option<Confidence> {
    if s == "High"@ {
        Some(Confidence::High)
    } else if s == "Medium"@ {
        Some(Confidence::Medium)
    } else if s == "Low"@ {
        Some(Confidence::Low)
    } else {
        None
    }
}

pub open spec fn spec_confidence_token(c: Confidence) -> Seq<char> {
    match c {
        Confidence::High => "High"@,
        Confidence::Medium => "Medium"@,
        Confidence::Low => "Low"@,
    }
}

impl Confidence {
    /// Reads a confidence grade; a token outside the closed set is an error.
    pub fn from_str(s: &str) -> (r: Result<Self, Error>)
        ensures
            r is Ok <==> spec_confidence_of(s@) is Some,
            r matches Ok(c) ==> spec_confidence_of(s@) == Some(c),
            r matches Err(e) ==> e == Error::UnknownConfidence,
    {
        if str_eq(s, "High") {
            Ok(Confidence::High)
        } else if str_eq(s, "Medium") {
            Ok(Confidence::Medium)
        } else if str_eq(s, "Low") {
            Ok(Confidence::Low)
        } else {
            Err(Error::UnknownConfidence)
        }
    }

    /// Writes the grade back as its token.
    pub fn to_string(&self) -> (s: String)
        ensures
            s@ == spec_confidence_token(*self),
    {
        match self {
            Confidence::High => String::from_str("High"),
            Confidence::Medium => String::from_str("Medium"),
            Confidence::Low => String::from_str("Low"),
        }
    }
}

/// The link-count buckets a snapshot row carries.
#[derive(Debug, Clone, Copy, PartialEq, Eq, Structural)]
pub enum ItemLinks {
    OneToFour,
    Five,
    Six,
}

pub open spec fn spec_item_links_of(s: Seq<char>) -> Option<ItemLinks> {
    if s == "1-4 links"@ {
        Some(ItemLinks::OneToFour)
    } else if s == "5 links"@ {
        Some(ItemLinks::Five)
    } else if s == "6 links"@ {
        Some(ItemLinks::Six)
    } else {
        None
    }
}

pub open spec fn spec_item_links_token(l: ItemLinks) -> Seq<char> {
    match l {
        ItemLinks::OneToFour => "1-4 links"@,
        ItemLinks::Five => "5 links"@,
        ItemLinks::Six => "6 links"@,
    }
}

impl ItemLinks {
    /// Reads a link-count bucket; a token outside the closed set is an
    /// error.
    pub fn from_str(s: &str) -> (r: Result<Self, Error>)
        ensures
            r is Ok <==> spec_item_links_of(s@) is Some,
            r matches Ok(l) ==> spec_item_links_of(s@) == Some(l),
            r matches Err(e) ==> e == Error::UnknownItemLinks,
    {
        if str_eq(s, "1-4 links") {
            Ok(ItemLinks::OneToFour)
        } else if str_eq(s, "5 links") {
            Ok(ItemLinks::Five)
        } else if str_eq(s, "6 links") {
            Ok(ItemLinks::Six)
        } else {
            Err(Error::UnknownItemLinks)
        }
    }

    /// Writes the bucket back as its token.
    pub fn to_string(&self) -> (s: String)
        ensures
            s@ == spec_item_links_token(*self),
    {
        match self {
            ItemLinks::OneToFour => String::from_str("1-4 links"),
            ItemLinks::Five => String::from_str("5 links"),
            ItemLinks::Six => String::from_str("6 links"),
        }
    }
}

} // verus!
