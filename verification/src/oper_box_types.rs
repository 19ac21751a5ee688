//! What the recognition of the operator box reports.

use vstd::prelude::*;

verus! {

/// The operators as they were recognised.
#[derive(Debug, Clone)]
pub struct OperBox {
    /// Whether the recognition has finished.
    pub done: bool,
    pub all_oper: Vec<OperInfo>,
    pub own_opers: Vec<OwnOperInfo>,
}

/// An operator of the game.
#[derive(Debug, Clone)]
pub struct OperInfo {
    pub id: String,
    pub name: String,
    pub own: bool,
    pub rarity: u8,
}

/// An operator that the player owns.
#[derive(Debug, Clone)]
pub struct OwnOperInfo {
    pub id: String,
    pub name: String,
    pub own: bool,
    pub elite: u8,
    pub level: u8,
    pub potential: u8,
    pub rarity: u8,
}

} // verus!
