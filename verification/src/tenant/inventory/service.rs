//! The decisions of the stock service: which lists it offers for selection.

use crate::common::service::{conflict_on_unique, RepositoryFailure, ServiceError};
use crate::common::text::text_eq;
use vstd::prelude::*;

verus! {

/// The lists a stock form offers for selection.
#[derive(Debug, Clone, Copy, PartialEq, Eq)]
pub enum InventorySelectLists {
    Products,
    Currencies,
    Warehouses,
    Taxes,
}

impl InventorySelectLists {
    /// The list a name asks for.
    pub open spec fn spec_from_name(s: Seq<char>) -> Option<Self> {
        if s == "products"@ {
            Some(InventorySelectLists::Products)
        } else if s == "currencies"@ {
            Some(InventorySelectLists::Currencies)
        } else if s == "warehouses"@ {
            Some(InventorySelectLists::Warehouses)
        } else if s == "taxes"@ {
            Some(InventorySelectLists::Taxes)
        } else {
            None
        }
    }

    /// Reads the name of a list; an unknown name is an invalid select list.
    pub fn parse(s: &str) -> (r: Result<Self, ServiceError>)
        ensures
            match Self::spec_from_name(s@) {
                Some(v) => r == Ok::<Self, ServiceError>(v),
                None => r == Err::<Self, ServiceError>(ServiceError::InvalidSelectList),
            },
    {
        if text_eq(s, "products") {
            Ok(InventorySelectLists::Products)
        } else if text_eq(s, "currencies") {
            Ok(InventorySelectLists::Currencies)
        } else if text_eq(s, "warehouses") {
            Ok(InventorySelectLists::Warehouses)
        } else if text_eq(s, "taxes") {
            Ok(InventorySelectLists::Taxes)
        } else {
            Err(ServiceError::InvalidSelectList)
        }
    }
}

impl std::str::FromStr for InventorySelectLists {
    type Err = ServiceError;

    fn from_str(s: &str) -> (r: Result<Self, Self::Err>)
        ensures
            match Self::spec_from_name(s@) {
                Some(v) => r == Ok::<Self, ServiceError>(v),
                None => r == Err::<Self, ServiceError>(ServiceError::InvalidSelectList),
            },
    {
        Self::parse(s)
    }
}

/// The message of an insert that would duplicate a stock record for the same product in the same warehouse.
pub const INVENTORY_EXISTS: &'static str = "A megadott termékhez már létezik raktárkészlet ebben a raktárban!";

/// An insert refused by a uniqueness constraint is a conflict with
/// `INVENTORY_EXISTS`; any other failure stays a repository error.
pub fn insert_failure(failure: RepositoryFailure) -> (r: ServiceError)
    ensures
        r == (match failure {
            RepositoryFailure::UniqueViolation(_) => ServiceError::Conflict(INVENTORY_EXISTS),
            _ => ServiceError::Repository(failure),
        }),
{
    conflict_on_unique(failure, INVENTORY_EXISTS)
}

} // verus!
