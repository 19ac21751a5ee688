//! What the recognition of the depot reports.

use vstd::prelude::*;

verus! {

/// The depot as it was recognised, in the formats of two planning sites.
#[derive(Debug, Clone)]
pub struct Depot {
    /// Whether the recognition has finished.
    pub done: bool,
    pub arkplanner: ArkPlanner,
    pub lolicon: Lolicon,
}

/// One kind of item in the depot.
#[derive(Debug, Clone)]
pub struct Item {
    pub id: String,
    pub have: u32,
    pub name: String,
}

/// The depot in the first format, as values.
#[derive(Debug, Clone)]
pub struct ArkPlannerObject {
    pub items: Vec<Item>,
    pub type_: String,
}

/// The depot in the first format.
#[derive(Debug, Clone)]
pub struct ArkPlanner {
    pub object: ArkPlannerObject,
    /// The same as text, ready to be pasted into the site.
    pub data: String,
}

/// The depot in the second format, as values: the quantity of each item
/// by its identifier.
#[derive(Debug, Clone)]
pub struct LoliconObject {
    pub items: Vec<(String, u32)>,
}

/// The depot in the second format.
#[derive(Debug, Clone)]
pub struct Lolicon {
    pub object: LoliconObject,
    /// The same as text, ready to be pasted into the site.
    pub data: String,
}

} // verus!
