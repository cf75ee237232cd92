//! Stock movement records as the database gives them, with identifiers as
//! their 128-bit values, amounts as decimal text and times as
//! `Timestamp`s.

use crate::common::time::Timestamp;
use vstd::prelude::*;

verus! {

/// A stock movement row.
#[derive(Debug, Clone, PartialEq)]
pub struct InventoryMovement {
    pub id: u128,
    pub inventory_id: u128,
    pub movement_type: String,
    pub quantity: String,
    pub reference_type: Option<String>,
    pub reference_id: Option<u128>,
    pub unit_price: Option<String>,
    pub total_price: Option<String>,
    pub tax_id: u128,
    pub movement_date: Timestamp,
    pub created_by_id: u128,
    pub created_at: Timestamp,
}

/// A stock movement row with the names of its tax and creator.
#[derive(Debug, Clone, PartialEq)]
pub struct InventoryMovementResolved {
    pub id: u128,
    pub inventory_id: u128,
    pub movement_type: String,
    pub quantity: String,
    pub reference_type: Option<String>,
    pub reference_id: Option<u128>,
    pub unit_price: Option<String>,
    pub total_price: Option<String>,
    pub tax_id: u128,
    pub tax: Option<String>,
    pub movement_date: Timestamp,
    pub created_by_id: u128,
    pub created_by: String,
    pub created_at: Timestamp,
}

} // verus!
