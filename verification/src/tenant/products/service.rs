//! The decisions of the product service: which lists it offers for
//! selection, and how a product with a new unit of measure is inserted.

use crate::common::bindings::{uuid_hyphenated, uuid_text};
use crate::common::service::ServiceError;
use crate::common::text::text_eq;
use crate::common::types::UuidVO;
use crate::common::value_object::{spec_parse_required, ValueObjectRequired};
use crate::tenant::products::dto::ProductUserInput;
use vstd::prelude::*;

verus! {

/// The lists a product form offers for selection.
#[derive(Debug, Clone, Copy, PartialEq, Eq)]
pub enum ProductsSelectLists {
    UnitsOfMeasure,
}

impl ProductsSelectLists {
    /// The list a name asks for.
    pub open spec fn spec_from_name(s: Seq<char>) -> Option<Self> {
        if s == "units_of_measure"@ {
            Some(ProductsSelectLists::UnitsOfMeasure)
        } else {
            None
        }
    }

    /// Reads the name of a list; an unknown name is an invalid select list.
    pub fn parse(s: &str) -> (r: Result<Self, ServiceError>)
        ensures
            match Self::spec_from_name(s@) {
                Some(v) => r == Ok::<Self, ServiceError>(v),
                None => r == Err::<Self, ServiceError>(ServiceError::InvalidSelectList),
            },
    {
        if text_eq(s, "units_of_measure") {
            Ok(ProductsSelectLists::UnitsOfMeasure)
        } else {
            Err(ServiceError::InvalidSelectList)
        }
    }
}

impl std::str::FromStr for ProductsSelectLists {
    type Err = ServiceError;

    fn from_str(s: &str) -> (r: Result<Self, Self::Err>)
        ensures
            match Self::spec_from_name(s@) {
                Some(v) => r == Ok::<Self, ServiceError>(v),
                None => r == Err::<Self, ServiceError>(ServiceError::InvalidSelectList),
            },
    {
        Self::parse(s)
    }
}

/// The unit of measure a product form asks to create before the product
/// is inserted, if any.
pub fn new_unit_to_create(input: &ProductUserInput) -> (r: Option<&str>)
    ensures
        match r {
            Some(t) => input.new_unit_of_measure matches Some(u) && t@ == u@,
            None => input.new_unit_of_measure is None,
        },
{
    match &input.new_unit_of_measure {
        Some(u) => match u.as_str() {
            Ok(t) => Some(t),
            Err(_) => None,
        },
        None => None,
    }
}

/// Points the product form at the unit of measure just created for it:
/// the unit's identifier, written as a UUID, becomes the form's unit of
/// measure. When that text does not read back as an identifier the insert
/// is refused as an inconsistent state, and the form is left as it was.
pub fn use_created_unit(input: &mut ProductUserInput, unit_id: u128) -> (r: Result<
    (),
    ServiceError,
>)
    ensures
        match spec_parse_required::<UuidVO>(uuid_hyphenated(unit_id)) {
            Ok(t) => {
                &&& r is Ok
                &&& final(input).unit_of_measure_id matches Some(u) && u@ == t
            },
            Err(_) => {
                &&& r == Err::<(), ServiceError>(ServiceError::InvalidState)
                &&& final(input).unit_of_measure_id == old(input).unit_of_measure_id
            },
        },
        final(input).id == old(input).id,
        final(input).name == old(input).name,
        final(input).description == old(input).description,
        final(input).new_unit_of_measure == old(input).new_unit_of_measure,
        final(input).status == old(input).status,
{
    let text = uuid_text(unit_id);
    match ValueObjectRequired::<UuidVO>::parse(text.as_str()) {
        Ok(id) => {
            input.unit_of_measure_id = Some(id);
            Ok(())
        },
        Err(_) => Err(ServiceError::InvalidState),
    }
}

} // verus!
