//! The values of a product: name, description, unit of measure, status and
//! the columns a product list may be ordered by.

use crate::common::paging::{
    is_order_direction, lemma_order_by_clause_frame, spec_order_by_clause,
};
use crate::common::text::{
    is_blank, lead_space, text_eq, trail_space, trim, trim_str, utf8_len, utf8_len_at_most,
};
use crate::common::types::{ActivityStatus, Description};
use crate::common::value_object::{
    keep_unless_blank, keep_unless_blank_str, lemma_keep_unless_blank_keeps, ValueObjectData,
    ValueObjectError,
};
use crate::common::value_object::spec_parse_required;
use vstd::prelude::*;

verus! {

/// The product name: required, the customer name's rules.
pub type ProductName = crate::tenant::customers::types::Name;

/// The product description: optional free text.
pub type ProductDescription = Description;

/// Whether a product is in use.
pub type ProductStatus = ActivityStatus;

/// The column a product list is ordered by.
#[derive(Debug, PartialEq, Clone)]
pub struct OrderBy(pub String);

impl OrderBy {
    /// The message for a column that cannot be ordered by.
    pub const VALIDATION_ERROR: &'static str = "Hibás sorrend formátum";

    /// The columns a product list may be ordered by (after trimming).
    pub open spec fn is_allowed(text: Seq<char>) -> bool {
        let t = trim(text);
        t == "name"@ || t == "unit_of_measure"@ || t == "status"@ || t == "created_at"@ || t
            == "updated_at"@
    }

    /// The ordering of a list is whitelisted: for a column that `validate`
    /// accepts and a direction of `ASC` or `DESC`, the `ORDER BY` clause of
    /// the products list is the fixed words, `name` or `unit_of_measure` or `status` or `created_at` or `updated_at` with at most
    /// whitespace around it, and the direction; no other text reaches it.
    pub proof fn lemma_clause_whitelisted(column: Seq<char>, direction: Seq<char>)
        requires
            Self::is_allowed(column),
            is_order_direction(direction),
        ensures
            spec_order_by_clause("products"@, Some(column), Some(direction)) == "ORDER BY "@
                + "products"@ + "."@ + lead_space(column) + trim(column) + trail_space(column)
                + " "@ + direction,
            trim(column) == "name"@ || trim(column) == "unit_of_measure"@ || trim(column) == "status"@ || trim(column) == "created_at"@ || trim(column) == "updated_at"@,
            is_blank(lead_space(column)),
            is_blank(trail_space(column)),
            direction == "ASC"@ || direction == "DESC"@,
    {
        lemma_order_by_clause_frame("products"@, column, direction);
    }

    /// Accepts the columns that `is_allowed` names.
    pub fn validate(&self) -> (r: Result<(), String>)
        ensures
            match r {
                Ok(_) => Self::is_allowed(self.0@),
                Err(m) => !Self::is_allowed(self.0@) && m@ == Self::VALIDATION_ERROR@,
            },
    {
        let t = trim_str(self.0.as_str());
        if text_eq(t, "name") || text_eq(t, "unit_of_measure") || text_eq(t, "status") || text_eq(
            t,
            "created_at",
        ) || text_eq(t, "updated_at") {
            Ok(())
        } else {
            Err(Self::VALIDATION_ERROR.to_owned())
        }
    }

    /// The column name as given.
    pub fn get_value(&self) -> (r: &String)
        ensures
            r@ == self.0@,
    {
        &self.0
    }

    /// The column name as it is displayed.
    pub fn to_string(&self) -> (r: String)
        ensures
            r@ == self.0@,
    {
        self.0.clone()
    }
}

impl std::str::FromStr for OrderBy {
    type Err = std::convert::Infallible;

    fn from_str(s: &str) -> (r: Result<Self, Self::Err>)
        ensures
            r matches Ok(o) && o.0@ == s@,
    {
        Ok(OrderBy(s.to_owned()))
    }
}

/// A unit of measure: at most 50 bytes of UTF-8.
#[derive(Debug, PartialEq, Clone)]
pub struct UnitsOfMeasure(String);

impl UnitsOfMeasure {
    /// The message for a unit longer than 50 bytes.
    pub const VALIDATION_ERROR: &'static str = "A mező maximum 50 karakter hosszú lehet";

    /// The length limit, in bytes of UTF-8.
    pub const MAX_BYTES: usize = 50;
}

impl ValueObjectData for UnitsOfMeasure {
    closed spec fn spec_text(&self) -> Seq<char> {
        self.0@
    }

    open spec fn spec_new(data: Seq<char>) -> Option<Seq<char>> {
        keep_unless_blank(data)
    }

    proof fn lemma_new_keeps(data: Seq<char>) {
        lemma_keep_unless_blank_keeps(data);
    }

    open spec fn spec_validate(text: Seq<char>) -> Result<(), ValueObjectError> {
        if utf8_len(text) <= 50 {
            Ok(())
        } else {
            Err(ValueObjectError::InvalidInput(Self::VALIDATION_ERROR))
        }
    }

    fn new(data: &str) -> (r: Option<Self>) {
        match keep_unless_blank_str(data) {
            Some(s) => Some(UnitsOfMeasure(s)),
            None => None,
        }
    }

    fn validate(&self) -> (r: Result<(), ValueObjectError>) {
        if utf8_len_at_most(self.0.as_str(), Self::MAX_BYTES) {
            Ok(())
        } else {
            Err(ValueObjectError::InvalidInput(Self::VALIDATION_ERROR))
        }
    }

    fn get_value(&self) -> (r: &String) {
        &self.0
    }
}

impl UnitsOfMeasure {
    /// A unit of measure is accepted exactly when it takes at most 50 bytes of UTF-8, and kept as
    /// given.
    pub proof fn lemma_parse(text: Seq<char>)
        ensures
            spec_parse_required::<UnitsOfMeasure>(text) is Ok
                <==> !is_blank(text) && utf8_len(text) <= 50,
            spec_parse_required::<UnitsOfMeasure>(text) matches Ok(v) ==> v == text,
            is_blank(text)
                ==> spec_parse_required::<UnitsOfMeasure>(text) == Err::<Seq<char>, _>(
                    ValueObjectError::Required,
                ),
            spec_parse_required::<UnitsOfMeasure>(text) matches Err(ValueObjectError::InvalidInput(m))
                ==> m == Self::VALIDATION_ERROR,
    {
    }
}

} // verus!
