//! The values of an inventory record: its status and the columns a list of
//! stock may be ordered by.

use crate::common::paging::{
    is_order_direction, lemma_order_by_clause_frame, spec_order_by_clause,
};
use crate::common::text::{is_blank, lead_space, text_eq, trail_space, trim, trim_str};
use crate::common::value_object::{
    keep_trimmed, keep_trimmed_str, lemma_keep_trimmed_keeps, ValueObjectData, ValueObjectError,
};
use crate::common::value_object::spec_parse_required;
use vstd::prelude::*;

verus! {

/// The column a stock list is ordered by.
#[derive(Debug, PartialEq, Clone)]
pub struct OrderBy(pub String);

impl OrderBy {
    /// The message for a column that cannot be ordered by.
    pub const VALIDATION_ERROR: &'static str = "Hibás sorrend formátum";

    /// The columns a stock list may be ordered by (after trimming).
    pub open spec fn is_allowed(text: Seq<char>) -> bool {
        trim(text) == "product_id"@
    }

    /// The ordering of a list is whitelisted: for a column that `validate`
    /// accepts and a direction of `ASC` or `DESC`, the `ORDER BY` clause of
    /// the inventory list is the fixed words, `product_id` with at most
    /// whitespace around it, and the direction; no other text reaches it.
    pub proof fn lemma_clause_whitelisted(column: Seq<char>, direction: Seq<char>)
        requires
            Self::is_allowed(column),
            is_order_direction(direction),
        ensures
            spec_order_by_clause("inventory"@, Some(column), Some(direction)) == "ORDER BY "@
                + "inventory"@ + "."@ + lead_space(column) + trim(column) + trail_space(column)
                + " "@ + direction,
            trim(column) == "product_id"@,
            is_blank(lead_space(column)),
            is_blank(trail_space(column)),
            direction == "ASC"@ || direction == "DESC"@,
    {
        lemma_order_by_clause_frame("inventory"@, column, direction);
    }

    /// Accepts the columns that `is_allowed` names.
    pub fn validate(&self) -> (r: Result<(), String>)
        ensures
            match r {
                Ok(_) => Self::is_allowed(self.0@),
                Err(m) => !Self::is_allowed(self.0@) && m@ == Self::VALIDATION_ERROR@,
            },
    {
        if text_eq(trim_str(self.0.as_str()), "product_id") {
            Ok(())
        } else {
            Err(Self::VALIDATION_ERROR.to_owned())
        }
    }

    /// The column name as given.
    pub fn get_value(&self) -> (r: &String)
        ensures
            r@ == self.0@,
    {
        &self.0
    }

    /// The column name as it is displayed.
    pub fn to_string(&self) -> (r: String)
        ensures
            r@ == self.0@,
    {
        self.0.clone()
    }
}

impl std::str::FromStr for OrderBy {
    type Err = std::convert::Infallible;

    fn from_str(s: &str) -> (r: Result<Self, Self::Err>)
        ensures
            r matches Ok(o) && o.0@ == s@,
    {
        Ok(OrderBy(s.to_owned()))
    }
}

/// Where a stock record stands: active, inactive or discontinued.
#[derive(Debug, PartialEq, Clone)]
pub struct Status(pub String);

/// The stock status under its form name.
pub type InventoryStatus = Status;

impl Status {
    /// The message for an unknown status.
    pub const VALIDATION_ERROR: &'static str = "Hibás termék státusz";

    /// The statuses there are.
    pub open spec fn is_known(text: Seq<char>) -> bool {
        text == "active"@ || text == "inactive"@ || text == "discontinued"@
    }

    /// The status as it is displayed.
    pub fn to_string(&self) -> (r: String)
        ensures
            r@ == self.0@,
    {
        self.0.clone()
    }
}

impl ValueObjectData for Status {
    open spec fn spec_text(&self) -> Seq<char> {
        self.0@
    }

    open spec fn spec_new(data: Seq<char>) -> Option<Seq<char>> {
        keep_trimmed(data)
    }

    proof fn lemma_new_keeps(data: Seq<char>) {
        lemma_keep_trimmed_keeps(data);
    }

    open spec fn spec_validate(text: Seq<char>) -> Result<(), ValueObjectError> {
        if Self::is_known(text) {
            Ok(())
        } else {
            Err(ValueObjectError::InvalidInput(Self::VALIDATION_ERROR))
        }
    }

    fn new(data: &str) -> (r: Option<Self>) {
        match keep_trimmed_str(data) {
            Some(s) => Some(Status(s)),
            None => None,
        }
    }

    fn validate(&self) -> (r: Result<(), ValueObjectError>) {
        let t = self.0.as_str();
        if text_eq(t, "active") || text_eq(t, "inactive") || text_eq(t, "discontinued") {
            Ok(())
        } else {
            Err(ValueObjectError::InvalidInput(Self::VALIDATION_ERROR))
        }
    }

    fn get_value(&self) -> (r: &String) {
        &self.0
    }
}

impl Status {
    /// A stock status is accepted exactly when, trimmed, it is `active`, `inactive` or
    /// `discontinued`; the trimmed text is kept.
    pub proof fn lemma_parse(text: Seq<char>)
        ensures
            spec_parse_required::<Status>(text) is Ok
                <==> trim(text).len() > 0 && (
                    trim(text) == "active"@ || trim(text) == "inactive"@ || trim(text) == "discontinued"@),
            spec_parse_required::<Status>(text) matches Ok(v) ==> v == trim(text),
            trim(text).len() == 0
                ==> spec_parse_required::<Status>(text) == Err::<Seq<char>, _>(
                    ValueObjectError::Required,
                ),
            spec_parse_required::<Status>(text) matches Err(ValueObjectError::InvalidInput(m))
                ==> m == Self::VALIDATION_ERROR,
    {
    }
}

} // verus!
