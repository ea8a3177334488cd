//! Character choices and metadata from the upstream character API.
use vstd::prelude::*;

verus! {

#[derive(Debug, Clone, PartialEq, Eq, Structural)]
pub enum BanditChoice {
    Kraityn,
    Alira,
    Oak,
    Eramir,
}

#[derive(Debug, Clone, PartialEq, Eq, Structural)]
pub enum PantheonMajor {
    TheBrineKing,
    Arakaali,
    Solaris,
    Lunaris,
}

#[derive(Debug, Clone, PartialEq, Eq, Structural)]
pub enum PantheonMinor {
    Abberath,
    Grukthul,
    Yugul,
    Shakari,
    Tukohama,
    Ralakesh,
    Garukhan,
    Ryslatha,
}

#[derive(Debug, Clone)]
pub struct CharacterMetadata {
    pub version: String,
}

} // verus!
