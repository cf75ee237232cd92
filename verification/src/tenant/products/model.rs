//! Product records as the database gives them, with identifiers as their
//! 128-bit values and times as `Timestamp`s.

use crate::common::time::Timestamp;
use vstd::prelude::*;

verus! {

/// A product row.
#[derive(Debug, Clone, PartialEq)]
pub struct Product {
    pub id: u128,
    pub name: String,
    pub description: Option<String>,
    pub unit_of_measure_id: u128,
    pub status: String,
    pub created_by_id: u128,
    pub created_at: Timestamp,
    pub updated_at: Timestamp,
    pub deleted_at: Option<Timestamp>,
}

/// A product row with the names of its unit of measure and creator.
#[derive(Debug, Clone, PartialEq)]
pub struct ProductResolved {
    pub id: u128,
    pub name: String,
    pub description: Option<String>,
    pub unit_of_measure_id: u128,
    pub unit_of_measure: String,
    pub status: String,
    pub created_by_id: u128,
    pub created_by: String,
    pub created_at: Timestamp,
    pub updated_at: Timestamp,
    pub deleted_at: Option<Timestamp>,
}

/// A unit of measure row.
#[derive(Debug, Clone, PartialEq)]
pub struct UnitOfMeasure {
    pub id: u128,
    pub unit_of_measure: String,
    pub created_at: Timestamp,
    pub deleted_at: Option<Timestamp>,
}

} // verus!
