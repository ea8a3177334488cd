//! Items as the upstream API describes them. `Item` here carries the fields
//! the pipeline reads — identity, name, note, league, rarity frame and mod
//! lists; the wire layer owns the full upstream shape and hands these in.
use vstd::prelude::*;

verus! {

/// Socket attribute colour classes.
#[derive(Debug, Clone, PartialEq, Eq, Structural)]
pub enum ColourAttr {
    /// Strength
    S,
    /// Dexterity
    D,
    /// Intelligence
    I,
    /// Generic
    G,
    /// Abyss
    A,
    /// Delve
    Dv,
}

/// Socket colours.
#[derive(Debug, Clone, PartialEq, Eq, Structural)]
pub enum SocketColour {
    /// Red
    R,
    /// Green
    G,
    /// Blue
    B,
    /// White
    W,
    /// Abyss
    A,
    /// Delve
    Dv,
}

/// The rarity frame an item is shown with. The wire layer reads the
/// upstream integer tag into this closed set.
#[derive(Debug, Clone, Copy, PartialEq, Eq, Structural)]
pub enum FrameType {
    Normal,
    Magic,
    Rare,
    Unique,
    Gem,
    Currency,
    DivinationCard,
    Quest,
    Prophecy,
    Foil,
    SupporterFoil,
}

/// What the pipeline reads of one public item: its stable id, its required
/// name, the free-text price note, the league it sits in, its rarity frame,
/// and its mod lists in upstream order.
#[derive(Debug, Clone)]
pub struct Item {
    pub id: Option<String>,
    pub name: String,
    pub note: Option<String>,
    pub league: Option<String>,
    pub frame_type: Option<FrameType>,
    pub implicit_mods: Option<Vec<String>>,
    pub explicit_mods: Option<Vec<String>>,
}

#[derive(Debug, Clone)]
pub struct ItemSocket {
    pub group: usize,
    pub attr: Option<ColourAttr>,
    pub s_colour: Option<SocketColour>,
}

#[derive(Debug, Clone)]
pub struct ItemRewards {
    pub label: String,
    pub rewards: std::collections::HashMap<String, i64>,
}

#[derive(Debug, Clone)]
pub struct LogbookFaction {
    pub id: String,
    pub name: String,
}

#[derive(Debug, Clone)]
pub struct LogbookArea {
    pub name: String,
    pub faction: LogbookFaction,
    pub mods: Vec<String>,
}

#[derive(Debug, Clone)]
pub struct UltimatumMod {
    pub kind: String,
    pub tier: usize,
}

#[derive(Debug, Clone)]
pub struct Incubator {
    pub name: String,
    pub level: usize,
    pub progress: usize,
    pub total: usize,
}

#[derive(Debug, Clone)]
pub struct ScourgeStatus {
    pub tier: usize,
    pub level: Option<usize>,
    pub progress: Option<usize>,
    pub total: Option<usize>,
}

#[derive(Debug, Clone)]
pub struct CrucibleNode {
    pub skill: Option<usize>,
    pub tier: Option<usize>,
    pub icon: Option<String>,
    pub allocated: Option<bool>,
    pub is_notable: Option<bool>,
    pub is_reward: Option<bool>,
    pub stats: Option<Vec<String>>,
    pub reminder_text: Option<Vec<String>>,
    pub orbit: Option<usize>,
    pub orbit_index: Option<usize>,
    pub out: Vec<String>,
    pub in_nodes: Vec<String>,
}

#[derive(Debug, Clone)]
pub struct CrucibleTree {
    pub layout: String,
    pub nodes: Vec<CrucibleNode>,
}

#[derive(Debug, Clone)]
pub struct ExtendedValues {
    pub category: Option<String>,
    pub subcategories: Option<Vec<String>>,
    pub prefixes: Option<usize>,
    pub suffixes: Option<usize>,
}

} // verus!
