//! What the engine reports of the base and its facilities.

use vstd::prelude::*;

verus! {

/// The engine entered a facility.
#[derive(Debug, Clone)]
pub struct EnterFacility {
    pub facility: String,
    pub index: u16,
}

/// A facility has fewer operators than it needs.
#[derive(Debug, Clone)]
pub struct NotEnoughStaff {
    pub facility: String,
    pub index: u16,
}

/// What a facility produces.
#[derive(Debug, Clone)]
pub struct ProductOfFacility {
    pub product: String,
    pub facility: String,
    pub index: u8,
}

} // verus!
