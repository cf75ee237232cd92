//! The values of a service: name, description, default price and status.

use crate::common::text::{is_blank, is_blank_str};
use crate::common::types::{ActivityStatus, Description, Float64};
use crate::common::value_object::{
    keep_unless_blank, keep_unless_blank_str, lemma_keep_unless_blank_keeps, ValueObjectData,
    ValueObjectError,
};
use crate::common::value_object::spec_parse_required;
use vstd::prelude::*;

verus! {

/// The service description: optional free text.
pub type ServiceDescription = Description;

/// The default price of a service: a number.
pub type DefaultPrice = Float64;

/// The default price under its form name.
pub type ServiceDefaultPrice = Float64;

/// Whether a service is in use.
pub type ServiceStatus = ActivityStatus;

/// The name of a service: not blank.
#[derive(Debug, PartialEq, Clone)]
pub struct Name(pub String);

/// The service name under its form name.
pub type ServiceName = Name;

impl Name {
    /// The message for a blank name.
    pub const VALIDATION_ERROR: &'static str = "A mező kitöltése kötelező";

    /// The name as it is displayed.
    pub fn to_string(&self) -> (r: String)
        ensures
            r@ == self.0@,
    {
        self.0.clone()
    }
}

impl ValueObjectData for Name {
    open spec fn spec_text(&self) -> Seq<char> {
        self.0@
    }

    open spec fn spec_new(data: Seq<char>) -> Option<Seq<char>> {
        keep_unless_blank(data)
    }

    proof fn lemma_new_keeps(data: Seq<char>) {
        lemma_keep_unless_blank_keeps(data);
    }

    open spec fn spec_validate(text: Seq<char>) -> Result<(), ValueObjectError> {
        if !is_blank(text) {
            Ok(())
        } else {
            Err(ValueObjectError::InvalidInput(Self::VALIDATION_ERROR))
        }
    }

    fn new(data: &str) -> (r: Option<Self>) {
        match keep_unless_blank_str(data) {
            Some(s) => Some(Name(s)),
            None => None,
        }
    }

    fn validate(&self) -> (r: Result<(), ValueObjectError>) {
        if !is_blank_str(self.0.as_str()) {
            Ok(())
        } else {
            Err(ValueObjectError::InvalidInput(Self::VALIDATION_ERROR))
        }
    }

    fn get_value(&self) -> (r: &String) {
        &self.0
    }
}

impl Name {
    /// A service name is accepted exactly when it is not blank, and kept as given.
    pub proof fn lemma_parse(text: Seq<char>)
        ensures
            spec_parse_required::<Name>(text) is Ok <==> !is_blank(text) && true,
            spec_parse_required::<Name>(text) matches Ok(v) ==> v == text,
            is_blank(text)
                ==> spec_parse_required::<Name>(text) == Err::<Seq<char>, _>(
                    ValueObjectError::Required,
                ),
            spec_parse_required::<Name>(text) matches Err(ValueObjectError::InvalidInput(m))
                ==> m == Self::VALIDATION_ERROR,
    {
    }
}

} // verus!
