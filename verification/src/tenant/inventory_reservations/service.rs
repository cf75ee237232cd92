//! The decisions of the stock reservation service: which lists it offers
//! for selection.

use crate::common::service::ServiceError;
use crate::common::text::text_eq;
use vstd::prelude::*;

verus! {

/// The errors a stock reservation request ends in: those of the shared
/// service layer.
pub type InventoryReservationsServiceError = ServiceError;

/// The lists a stock reservation form offers for selection.
#[derive(Debug, Clone, Copy, PartialEq, Eq)]
pub enum InventoryReservationsSelectLists {
    Worksheets,
    Inventory,
}

impl InventoryReservationsSelectLists {
    /// The list a name asks for.
    pub open spec fn spec_from_name(s: Seq<char>) -> Option<Self> {
        if s == "worksheets"@ {
            Some(InventoryReservationsSelectLists::Worksheets)
        } else if s == "inventory"@ {
            Some(InventoryReservationsSelectLists::Inventory)
        } else {
            None
        }
    }

    /// Reads the name of a list; an unknown name is an invalid select list.
    pub fn parse(s: &str) -> (r: Result<Self, ServiceError>)
        ensures
            match Self::spec_from_name(s@) {
                Some(v) => r == Ok::<Self, ServiceError>(v),
                None => r == Err::<Self, ServiceError>(ServiceError::InvalidSelectList),
            },
    {
        if text_eq(s, "worksheets") {
            Ok(InventoryReservationsSelectLists::Worksheets)
        } else if text_eq(s, "inventory") {
            Ok(InventoryReservationsSelectLists::Inventory)
        } else {
            Err(ServiceError::InvalidSelectList)
        }
    }
}

impl std::str::FromStr for InventoryReservationsSelectLists {
    type Err = ServiceError;

    fn from_str(s: &str) -> (r: Result<Self, Self::Err>)
        ensures
            match Self::spec_from_name(s@) {
                Some(v) => r == Ok::<Self, ServiceError>(v),
                None => r == Err::<Self, ServiceError>(ServiceError::InvalidSelectList),
            },
    {
        Self::parse(s)
    }
}

} // verus!
