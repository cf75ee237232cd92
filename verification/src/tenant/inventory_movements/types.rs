//! The values of a stock movement: its direction and what it refers to.

use crate::common::text::text_eq;
use crate::common::value_object::{
    keep_trimmed, keep_trimmed_str, lemma_keep_trimmed_keeps, ValueObjectData, ValueObjectError,
};
use crate::common::text::trim;
use crate::common::value_object::spec_parse_required;
use vstd::prelude::*;

verus! {

/// The direction of a stock movement: in or out.
#[derive(Debug, PartialEq, Clone)]
pub struct MovementType(String);

/// The movement direction under its form name.
pub type InventoryMovementType = MovementType;

impl MovementType {
    /// The message for an unknown direction.
    pub const VALIDATION_ERROR: &'static str = "Hibás mozgás típus";

    /// The directions there are.
    pub open spec fn is_known(text: Seq<char>) -> bool {
        text == "in"@ || text == "out"@
    }
}

impl ValueObjectData for MovementType {
    closed spec fn spec_text(&self) -> Seq<char> {
        self.0@
    }

    open spec fn spec_new(data: Seq<char>) -> Option<Seq<char>> {
        keep_trimmed(data)
    }

    proof fn lemma_new_keeps(data: Seq<char>) {
        lemma_keep_trimmed_keeps(data);
    }

    open spec fn spec_validate(text: Seq<char>) -> Result<(), ValueObjectError> {
        if Self::is_known(text) {
            Ok(())
        } else {
            Err(ValueObjectError::InvalidInput(Self::VALIDATION_ERROR))
        }
    }

    fn new(data: &str) -> (r: Option<Self>) {
        match keep_trimmed_str(data) {
            Some(s) => Some(MovementType(s)),
            None => None,
        }
    }

    fn validate(&self) -> (r: Result<(), ValueObjectError>) {
        let t = self.0.as_str();
        if text_eq(t, "in") || text_eq(t, "out") {
            Ok(())
        } else {
            Err(ValueObjectError::InvalidInput(Self::VALIDATION_ERROR))
        }
    }

    fn get_value(&self) -> (r: &String) {
        &self.0
    }
}

/// The kind of document a stock movement or reservation refers to.
#[derive(Debug, PartialEq, Clone)]
pub struct InventoryReferenceType(pub String);

impl InventoryReferenceType {
    /// The message for an unknown kind of document.
    pub const VALIDATION_ERROR: &'static str = "Hibás hivatkozás típus";

    /// The kinds of document there are.
    pub open spec fn is_known(text: Seq<char>) -> bool {
        text == "worksheets"@
    }
}

impl ValueObjectData for InventoryReferenceType {
    open spec fn spec_text(&self) -> Seq<char> {
        self.0@
    }

    open spec fn spec_new(data: Seq<char>) -> Option<Seq<char>> {
        keep_trimmed(data)
    }

    proof fn lemma_new_keeps(data: Seq<char>) {
        lemma_keep_trimmed_keeps(data);
    }

    open spec fn spec_validate(text: Seq<char>) -> Result<(), ValueObjectError> {
        if Self::is_known(text) {
            Ok(())
        } else {
            Err(ValueObjectError::InvalidInput(Self::VALIDATION_ERROR))
        }
    }

    fn new(data: &str) -> (r: Option<Self>) {
        match keep_trimmed_str(data) {
            Some(s) => Some(InventoryReferenceType(s)),
            None => None,
        }
    }

    fn validate(&self) -> (r: Result<(), ValueObjectError>) {
        if text_eq(self.0.as_str(), "worksheets") {
            Ok(())
        } else {
            Err(ValueObjectError::InvalidInput(Self::VALIDATION_ERROR))
        }
    }

    fn get_value(&self) -> (r: &String) {
        &self.0
    }
}

impl MovementType {
    /// A movement type is accepted exactly when, trimmed, it is `in` or `out`; the trimmed text
    /// is kept.
    pub proof fn lemma_parse(text: Seq<char>)
        ensures
            spec_parse_required::<MovementType>(text) is Ok
                <==> trim(text).len() > 0 && (
                    trim(text) == "in"@ || trim(text) == "out"@),
            spec_parse_required::<MovementType>(text) matches Ok(v) ==> v == trim(text),
            trim(text).len() == 0
                ==> spec_parse_required::<MovementType>(text) == Err::<Seq<char>, _>(
                    ValueObjectError::Required,
                ),
            spec_parse_required::<MovementType>(text) matches Err(ValueObjectError::InvalidInput(m))
                ==> m == Self::VALIDATION_ERROR,
    {
    }
}

impl InventoryReferenceType {
    /// A reference type is accepted exactly when, trimmed, it is `worksheets`; the trimmed text
    /// is kept.
    pub proof fn lemma_parse(text: Seq<char>)
        ensures
            spec_parse_required::<InventoryReferenceType>(text) is Ok
                <==> trim(text).len() > 0 && (
                    trim(text) == "worksheets"@),
            spec_parse_required::<InventoryReferenceType>(text) matches Ok(v) ==> v == trim(text),
            trim(text).len() == 0
                ==> spec_parse_required::<InventoryReferenceType>(text) == Err::<Seq<char>, _>(
                    ValueObjectError::Required,
                ),
            spec_parse_required::<InventoryReferenceType>(text) matches Err(ValueObjectError::InvalidInput(m))
                ==> m == Self::VALIDATION_ERROR,
    {
    }
}

} // verus!
