//! The values of a customer form: name, contact name, type, phone number
//! and status.

use crate::common::bindings::{regex_is_match, regex_outcome};
use crate::common::text::{is_blank, is_blank_str, text_eq, utf8_len, utf8_len_at_most};
use crate::common::types::pattern_verdict;
use crate::common::value_object::{
    keep_trimmed, keep_trimmed_str, keep_unless_blank, keep_unless_blank_str,
    lemma_keep_trimmed_keeps, lemma_keep_unless_blank_keeps, ValueObjectData, ValueObjectError,
};
use crate::common::text::trim;
use crate::common::value_object::spec_parse_required;
use vstd::prelude::*;

verus! {

/// The name of a customer's contact person.
#[derive(Debug, PartialEq, Clone)]
pub struct ContactName(String);

impl ContactName {
    /// The message for a blank contact name.
    pub const VALIDATION_ERROR: &'static str = "A mező kitöltése kötelező";
}

impl ValueObjectData for ContactName {
    closed spec fn spec_text(&self) -> Seq<char> {
        self.0@
    }

    open spec fn spec_new(data: Seq<char>) -> Option<Seq<char>> {
        keep_unless_blank(data)
    }

    proof fn lemma_new_keeps(data: Seq<char>) {
        lemma_keep_unless_blank_keeps(data);
    }

    open spec fn spec_validate(text: Seq<char>) -> Result<(), ValueObjectError> {
        if !is_blank(text) {
            Ok(())
        } else {
            Err(ValueObjectError::InvalidInput(Self::VALIDATION_ERROR))
        }
    }

    fn new(data: &str) -> (r: Option<Self>) {
        match keep_unless_blank_str(data) {
            Some(s) => Some(ContactName(s)),
            None => None,
        }
    }

    fn validate(&self) -> (r: Result<(), ValueObjectError>) {
        if !is_blank_str(self.0.as_str()) {
            Ok(())
        } else {
            Err(ValueObjectError::InvalidInput(Self::VALIDATION_ERROR))
        }
    }

    fn get_value(&self) -> (r: &String) {
        &self.0
    }
}

/// Whether a customer is a natural or a legal person.
#[derive(Debug, PartialEq, Clone)]
pub struct CustomerType(String);

impl CustomerType {
    /// The message for an unknown customer type.
    pub const VALIDATION_ERROR: &'static str = "Hibás vevő típus!";

    /// The customer types there are.
    pub open spec fn is_known(text: Seq<char>) -> bool {
        text == "natural"@ || text == "legal"@
    }
}

impl ValueObjectData for CustomerType {
    closed spec fn spec_text(&self) -> Seq<char> {
        self.0@
    }

    open spec fn spec_new(data: Seq<char>) -> Option<Seq<char>> {
        keep_trimmed(data)
    }

    proof fn lemma_new_keeps(data: Seq<char>) {
        lemma_keep_trimmed_keeps(data);
    }

    open spec fn spec_validate(text: Seq<char>) -> Result<(), ValueObjectError> {
        if Self::is_known(text) {
            Ok(())
        } else {
            Err(ValueObjectError::InvalidInput(Self::VALIDATION_ERROR))
        }
    }

    fn new(data: &str) -> (r: Option<Self>) {
        match keep_trimmed_str(data) {
            Some(s) => Some(CustomerType(s)),
            None => None,
        }
    }

    fn validate(&self) -> (r: Result<(), ValueObjectError>) {
        let t = self.0.as_str();
        if text_eq(t, "natural") || text_eq(t, "legal") {
            Ok(())
        } else {
            Err(ValueObjectError::InvalidInput(Self::VALIDATION_ERROR))
        }
    }

    fn get_value(&self) -> (r: &String) {
        &self.0
    }
}

/// The name of a customer: at most 255 bytes of UTF-8.
#[derive(Debug, PartialEq, Clone)]
pub struct Name(String);

/// The customer name under its form name.
pub type CustomerName = Name;

impl Name {
    /// The message for a name longer than 255 bytes.
    pub const VALIDATION_ERROR: &'static str = "A név nem lehet 255 karakternél hosszabb";

    /// The length limit, in bytes of UTF-8.
    pub const MAX_BYTES: usize = 255;
}

impl ValueObjectData for Name {
    closed spec fn spec_text(&self) -> Seq<char> {
        self.0@
    }

    open spec fn spec_new(data: Seq<char>) -> Option<Seq<char>> {
        keep_unless_blank(data)
    }

    proof fn lemma_new_keeps(data: Seq<char>) {
        lemma_keep_unless_blank_keeps(data);
    }

    open spec fn spec_validate(text: Seq<char>) -> Result<(), ValueObjectError> {
        if utf8_len(text) <= 255 {
            Ok(())
        } else {
            Err(ValueObjectError::InvalidInput(Self::VALIDATION_ERROR))
        }
    }

    fn new(data: &str) -> (r: Option<Self>) {
        match keep_unless_blank_str(data) {
            Some(s) => Some(Name(s)),
            None => None,
        }
    }

    fn validate(&self) -> (r: Result<(), ValueObjectError>) {
        if utf8_len_at_most(self.0.as_str(), Self::MAX_BYTES) {
            Ok(())
        } else {
            Err(ValueObjectError::InvalidInput(Self::VALIDATION_ERROR))
        }
    }

    fn get_value(&self) -> (r: &String) {
        &self.0
    }
}

/// An international phone number: `+`, a non-zero digit, then 4 to 15
/// further digits.
#[derive(Debug, PartialEq, Clone)]
pub struct PhoneNumber(pub String);

/// The customer phone number under its form name.
pub type CustomerPhoneNumber = PhoneNumber;

impl PhoneNumber {
    /// The shape a phone number must have.
    pub const PATTERN: &'static str = r"^\+[1-9]\d{4,15}$";

    /// The message for a text that is not a phone number.
    pub const VALIDATION_ERROR: &'static str = "Hibás telefonszám formátum";

    /// The text as it is displayed.
    pub fn to_string(&self) -> (r: String)
        ensures
            r@ == self.0@,
    {
        self.0.clone()
    }
}

impl ValueObjectData for PhoneNumber {
    open spec fn spec_text(&self) -> Seq<char> {
        self.0@
    }

    open spec fn spec_new(data: Seq<char>) -> Option<Seq<char>> {
        keep_unless_blank(data)
    }

    proof fn lemma_new_keeps(data: Seq<char>) {
        lemma_keep_unless_blank_keeps(data);
    }

    open spec fn spec_validate(text: Seq<char>) -> Result<(), ValueObjectError> {
        if regex_outcome(Self::PATTERN@, text) == Some(true) {
            Ok(())
        } else {
            Err(ValueObjectError::InvalidInput(Self::VALIDATION_ERROR))
        }
    }

    fn new(data: &str) -> (r: Option<Self>) {
        match keep_unless_blank_str(data) {
            Some(s) => Some(PhoneNumber(s)),
            None => None,
        }
    }

    fn validate(&self) -> (r: Result<(), ValueObjectError>) {
        pattern_verdict(regex_is_match(Self::PATTERN, self.0.as_str()), Self::VALIDATION_ERROR)
    }

    fn get_value(&self) -> (r: &String) {
        &self.0
    }
}

/// Where a customer stands: active, lead, prospect or inactive.
#[derive(Debug, PartialEq, Clone)]
pub struct CustomerStatus(pub String);

impl CustomerStatus {
    /// The message for an unknown status.
    pub const VALIDATION_ERROR: &'static str = "Hibás vevő státusz";

    /// The statuses there are.
    pub open spec fn is_known(text: Seq<char>) -> bool {
        text == "active"@ || text == "lead"@ || text == "prospect"@ || text == "inactive"@
    }
}

impl ValueObjectData for CustomerStatus {
    open spec fn spec_text(&self) -> Seq<char> {
        self.0@
    }

    open spec fn spec_new(data: Seq<char>) -> Option<Seq<char>> {
        keep_trimmed(data)
    }

    proof fn lemma_new_keeps(data: Seq<char>) {
        lemma_keep_trimmed_keeps(data);
    }

    open spec fn spec_validate(text: Seq<char>) -> Result<(), ValueObjectError> {
        if Self::is_known(text) {
            Ok(())
        } else {
            Err(ValueObjectError::InvalidInput(Self::VALIDATION_ERROR))
        }
    }

    fn new(data: &str) -> (r: Option<Self>) {
        match keep_trimmed_str(data) {
            Some(s) => Some(CustomerStatus(s)),
            None => None,
        }
    }

    fn validate(&self) -> (r: Result<(), ValueObjectError>) {
        let t = self.0.as_str();
        if text_eq(t, "active") || text_eq(t, "lead") || text_eq(t, "prospect") || text_eq(
            t,
            "inactive",
        ) {
            Ok(())
        } else {
            Err(ValueObjectError::InvalidInput(Self::VALIDATION_ERROR))
        }
    }

    fn get_value(&self) -> (r: &String) {
        &self.0
    }
}

impl ContactName {
    /// A contact name is accepted exactly when it is not blank, and kept as given.
    pub proof fn lemma_parse(text: Seq<char>)
        ensures
            spec_parse_required::<ContactName>(text) is Ok <==> !is_blank(text) && true,
            spec_parse_required::<ContactName>(text) matches Ok(v) ==> v == text,
            is_blank(text)
                ==> spec_parse_required::<ContactName>(text) == Err::<Seq<char>, _>(
                    ValueObjectError::Required,
                ),
            spec_parse_required::<ContactName>(text) matches Err(ValueObjectError::InvalidInput(m))
                ==> m == Self::VALIDATION_ERROR,
    {
    }
}

impl CustomerType {
    /// A customer type is accepted exactly when, trimmed, it is `natural` or `legal`; the trimmed
    /// text is kept.
    pub proof fn lemma_parse(text: Seq<char>)
        ensures
            spec_parse_required::<CustomerType>(text) is Ok
                <==> trim(text).len() > 0 && (
                    trim(text) == "natural"@ || trim(text) == "legal"@),
            spec_parse_required::<CustomerType>(text) matches Ok(v) ==> v == trim(text),
            trim(text).len() == 0
                ==> spec_parse_required::<CustomerType>(text) == Err::<Seq<char>, _>(
                    ValueObjectError::Required,
                ),
            spec_parse_required::<CustomerType>(text) matches Err(ValueObjectError::InvalidInput(m))
                ==> m == Self::VALIDATION_ERROR,
    {
    }
}

impl Name {
    /// A customer name is accepted exactly when it takes at most 255 bytes of UTF-8, and kept as
    /// given.
    pub proof fn lemma_parse(text: Seq<char>)
        ensures
            spec_parse_required::<Name>(text) is Ok <==> !is_blank(text) && utf8_len(text) <= 255,
            spec_parse_required::<Name>(text) matches Ok(v) ==> v == text,
            is_blank(text)
                ==> spec_parse_required::<Name>(text) == Err::<Seq<char>, _>(
                    ValueObjectError::Required,
                ),
            spec_parse_required::<Name>(text) matches Err(ValueObjectError::InvalidInput(m))
                ==> m == Self::VALIDATION_ERROR,
    {
    }
}

impl PhoneNumber {
    /// A phone number is accepted exactly when the pattern `^\+[1-9]\d{4,15}$` matches the text,
    /// which is kept as given.
    pub proof fn lemma_parse(text: Seq<char>)
        ensures
            spec_parse_required::<PhoneNumber>(text) is Ok
                <==> !is_blank(text) && regex_outcome(Self::PATTERN@, text) == Some(true),
            spec_parse_required::<PhoneNumber>(text) matches Ok(v) ==> v == text,
            is_blank(text)
                ==> spec_parse_required::<PhoneNumber>(text) == Err::<Seq<char>, _>(
                    ValueObjectError::Required,
                ),
            spec_parse_required::<PhoneNumber>(text) matches Err(ValueObjectError::InvalidInput(m))
                ==> m == Self::VALIDATION_ERROR,
            Self::PATTERN@ == r"^\+[1-9]\d{4,15}$"@,
    {
    }
}

impl CustomerStatus {
    /// A customer status is accepted exactly when, trimmed, it is `active`, `lead`, `prospect` or
    /// `inactive`; the trimmed text is kept.
    pub proof fn lemma_parse(text: Seq<char>)
        ensures
            spec_parse_required::<CustomerStatus>(text) is Ok
                <==> trim(text).len() > 0 && (
                    trim(text) == "active"@ || trim(text) == "lead"@ || trim(text) == "prospect"@ || trim(text) == "inactive"@),
            spec_parse_required::<CustomerStatus>(text) matches Ok(v) ==> v == trim(text),
            trim(text).len() == 0
                ==> spec_parse_required::<CustomerStatus>(text) == Err::<Seq<char>, _>(
                    ValueObjectError::Required,
                ),
            spec_parse_required::<CustomerStatus>(text) matches Err(ValueObjectError::InvalidInput(m))
                ==> m == Self::VALIDATION_ERROR,
    {
    }
}

} // verus!
