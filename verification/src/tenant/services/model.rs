//! Service records as the database gives them, with identifiers as their
//! 128-bit values, prices as decimal text and times as `Timestamp`s.

use crate::common::time::Timestamp;
use vstd::prelude::*;

verus! {

/// A service row.
#[derive(Debug, Clone, PartialEq)]
pub struct Service {
    pub id: u128,
    pub name: String,
    pub description: Option<String>,
    pub default_price: Option<String>,
    pub default_tax_id: Option<u128>,
    pub currency_code: Option<String>,
    pub status: String,
    pub created_by_id: u128,
    pub created_at: Timestamp,
    pub updated_at: Timestamp,
    pub deleted_at: Option<Timestamp>,
}

/// A service row with the names of its default tax and creator.
#[derive(Debug, Clone, PartialEq)]
pub struct ServiceResolved {
    pub id: u128,
    pub name: String,
    pub description: Option<String>,
    pub default_price: Option<String>,
    pub default_tax_id: Option<u128>,
    pub default_tax: Option<String>,
    pub currency_code: Option<String>,
    pub status: String,
    pub created_by_id: u128,
    pub created_by: String,
    pub created_at: Timestamp,
    pub updated_at: Timestamp,
    pub deleted_at: Option<Timestamp>,
}

} // verus!
