//! What the engine reports of a stage and of what it dropped.

use vstd::prelude::*;
use vstd::string::*;
use crate::text::{decimal, decimal_text};

verus! {

/// The drops of one run of a stage.
#[derive(Debug, Clone)]
pub struct StageDrops {
    pub stage: Stage,
    /// The stars that the run was cleared with.
    pub stars: u8,
    /// One entry for each item that the stage has dropped so far.
    pub stats: Vec<Stat>,
}

/// A stage of the game.
#[derive(Debug, Clone)]
pub struct Stage {
    /// The code of the stage, such as `1-7`.
    pub stage_code: String,
}

/// How much of one item a stage has dropped.
#[derive(Debug, Clone)]
pub struct Stat {
    pub item_name: String,
    /// The quantity dropped over all runs.
    pub quantity: u32,
    /// The quantity that the last run added.
    pub add_quantity: u32,
}

/// The identifier under which drops are reported to the statistics site.
#[derive(Debug, Clone)]
pub struct PenguinId {
    pub id: String,
}

/// The stage that an automatic battle plays.
#[derive(Debug, Clone)]
pub struct StageInfo {
    pub name: String,
}

impl Stat {
    /// The line that shows this entry: the item's name in single quotes, a
    /// star, the quantity, the added quantity in brackets behind a plus
    /// sign, and a line feed.
    pub open spec fn spec_text(self) -> Seq<char> {
        "'"@ + self.item_name@ + "'*"@ + decimal_text(self.quantity as nat) + " (+"@
            + decimal_text(self.add_quantity as nat) + ")\n"@
    }

    /// The line that shows this entry.
    pub fn to_text(&self) -> (r: String)
        ensures
            r@ == self.spec_text(),
    {
        let mut r = String::from_str("'");
        r.append(self.item_name.as_str());
        r.append("'*");
        r.append(decimal(self.quantity as u64).as_str());
        r.append(" (+");
        r.append(decimal(self.add_quantity as u64).as_str());
        r.append(")\n");
        r
    }
}

} // verus!
