//! What the engine reports of the recruitment screen.

use vstd::prelude::*;

verus! {

/// The tags that were read from the screen.
#[derive(Debug, Clone)]
pub struct RecruitTagsDetected {
    pub tags: Vec<String>,
}

/// The tags that were selected: of the same shape as the tags detected.
pub type RecruitTagsSelected = RecruitTagsDetected;

/// A tag that deserves the player's attention.
#[derive(Debug, Clone)]
pub struct RecruitSpecialTag {
    pub tag: String,
}

/// An operator that a combination of tags can yield.
#[derive(Debug, Clone)]
pub struct Oper {
    pub name: String,
    pub level: u32,
}

/// A combination of tags, and the operators that it can yield.
#[derive(Debug, Clone)]
pub struct ResultEntry {
    pub tags: Vec<String>,
    pub level: u8,
    pub opers: Vec<Oper>,
}

/// What the recognition of the recruitment screen found.
#[derive(Debug, Clone)]
pub struct RecruitResult {
    /// The tags on the screen.
    pub tags: Vec<String>,
    /// The highest rarity that the tags guarantee.
    pub level: u8,
    pub result: Vec<ResultEntry>,
}

/// The tags were refreshed.
#[derive(Debug, Clone)]
pub struct RecruitTagsRefreshed {
    pub count: u8,
    pub refresh_limit: u8,
}

/// No recruitment permit is left.
#[derive(Debug, Clone)]
pub struct RecruitNoPermit {
    /// Whether the task goes on without one.
    pub continue_: bool,
}

} // verus!
