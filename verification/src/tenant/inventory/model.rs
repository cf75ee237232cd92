//! Stock records as the database gives them, with identifiers as their
//! 128-bit values, amounts as decimal text and times as `Timestamp`s.

use crate::common::time::Timestamp;
use vstd::prelude::*;

verus! {

/// A stock row.
#[derive(Debug, Clone, PartialEq)]
pub struct Inventory {
    pub id: u128,
    pub product_id: u128,
    pub warehouse_id: u128,
    pub quantity_on_hand: String,
    pub quantity_reserved: String,
    pub quantity_available: String,
    pub minimum_stock: Option<String>,
    pub maximum_stock: Option<String>,
    pub currency_code: String,
    pub status: String,
    pub created_by_id: u128,
    pub created_at: Timestamp,
    pub updated_at: Timestamp,
    pub deleted_at: Option<Timestamp>,
}

/// A stock row with the names of its product, warehouse, currency and
/// creator.
#[derive(Debug, Clone, PartialEq)]
pub struct InventoryResolved {
    pub id: u128,
    pub product_id: u128,
    pub product: String,
    pub warehouse_id: u128,
    pub warehouse: String,
    pub quantity_on_hand: String,
    pub quantity_reserved: String,
    pub quantity_available: String,
    pub minimum_stock: Option<String>,
    pub maximum_stock: Option<String>,
    pub currency_code: String,
    pub currency: String,
    pub status: String,
    pub created_by_id: u128,
    pub created_by: String,
    pub created_at: Timestamp,
    pub updated_at: Timestamp,
    pub deleted_at: Option<Timestamp>,
}

} // verus!
