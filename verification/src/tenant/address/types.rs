//! The values of an address form: the country code and the free-text parts
//! of an address.

use crate::common::text::{utf8_len, utf8_len_at_most};
use crate::common::value_object::{
    keep_unless_blank, keep_unless_blank_str, lemma_keep_unless_blank_keeps, ValueObjectData,
    ValueObjectError,
};
use crate::common::text::is_blank;
use crate::common::value_object::spec_parse_required;
use vstd::prelude::*;

verus! {

/// Whether a text is two capital letters A-Z, as in ISO 3166-1 alpha-2.
pub open spec fn is_country_code(text: Seq<char>) -> bool {
    text.len() == 2 && forall|i: int| 0 <= i < 2 ==> 'A' <= #[trigger] text[i] <= 'Z'
}

/// A country code: two capital letters A-Z.
#[derive(Debug, Clone, PartialEq)]
pub struct CountryCode(pub String);

impl CountryCode {
    /// The message for text that is not a country code.
    pub const VALIDATION_ERROR: &'static str = "Hibás országkód";
}

impl ValueObjectData for CountryCode {
    open spec fn spec_text(&self) -> Seq<char> {
        self.0@
    }

    open spec fn spec_new(data: Seq<char>) -> Option<Seq<char>> {
        keep_unless_blank(data)
    }

    proof fn lemma_new_keeps(data: Seq<char>) {
        lemma_keep_unless_blank_keeps(data);
    }

    open spec fn spec_validate(text: Seq<char>) -> Result<(), ValueObjectError> {
        if is_country_code(text) {
            Ok(())
        } else {
            Err(ValueObjectError::InvalidInput(Self::VALIDATION_ERROR))
        }
    }

    fn new(data: &str) -> (r: Option<Self>) {
        match keep_unless_blank_str(data) {
            Some(s) => Some(CountryCode(s)),
            None => None,
        }
    }

    fn validate(&self) -> (r: Result<(), ValueObjectError>) {
        let t = self.0.as_str();
        if t.unicode_len() != 2 {
            return Err(ValueObjectError::InvalidInput(Self::VALIDATION_ERROR));
        }
        let mut i: usize = 0;
        while i < 2
            invariant
                i <= 2,
                t@.len() == 2,
                t@ == self.0@,
                forall|k: int| 0 <= k < i ==> 'A' <= #[trigger] t@[k] <= 'Z',
            decreases 2 - i,
        {
            let c = t.get_char(i);
            if !('A' <= c && c <= 'Z') {
                return Err(ValueObjectError::InvalidInput(Self::VALIDATION_ERROR));
            }
            i = i + 1;
        }
        Ok(())
    }

    fn get_value(&self) -> (r: &String) {
        &self.0
    }
}

/// A free-text part of an address (postal code, settlement, street, house
/// number and the like): at most 255 bytes of UTF-8.
#[derive(Debug, Clone, PartialEq)]
pub struct AddressPart(pub String);

impl AddressPart {
    /// The message for a part longer than 255 bytes.
    pub const VALIDATION_ERROR: &'static str = "A mező legfeljebb 255 karakter hosszú lehet";

    /// The length limit, in bytes of UTF-8.
    pub const MAX_BYTES: usize = 255;
}

impl ValueObjectData for AddressPart {
    open spec fn spec_text(&self) -> Seq<char> {
        self.0@
    }

    open spec fn spec_new(data: Seq<char>) -> Option<Seq<char>> {
        keep_unless_blank(data)
    }

    proof fn lemma_new_keeps(data: Seq<char>) {
        lemma_keep_unless_blank_keeps(data);
    }

    open spec fn spec_validate(text: Seq<char>) -> Result<(), ValueObjectError> {
        if utf8_len(text) <= 255 {
            Ok(())
        } else {
            Err(ValueObjectError::InvalidInput(Self::VALIDATION_ERROR))
        }
    }

    fn new(data: &str) -> (r: Option<Self>) {
        match keep_unless_blank_str(data) {
            Some(s) => Some(AddressPart(s)),
            None => None,
        }
    }

    fn validate(&self) -> (r: Result<(), ValueObjectError>) {
        if utf8_len_at_most(self.0.as_str(), Self::MAX_BYTES) {
            Ok(())
        } else {
            Err(ValueObjectError::InvalidInput(Self::VALIDATION_ERROR))
        }
    }

    fn get_value(&self) -> (r: &String) {
        &self.0
    }
}

impl CountryCode {
    /// A country code is accepted exactly when it is two capital letters A-Z.
    pub proof fn lemma_parse(text: Seq<char>)
        ensures
            spec_parse_required::<CountryCode>(text) is Ok
                <==> !is_blank(text) && text.len() == 2
                    && 'A' <= text[0] <= 'Z' && 'A' <= text[1] <= 'Z',
            spec_parse_required::<CountryCode>(text) matches Ok(v) ==> v == text,
            is_blank(text)
                ==> spec_parse_required::<CountryCode>(text) == Err::<Seq<char>, _>(
                    ValueObjectError::Required,
                ),
            spec_parse_required::<CountryCode>(text) matches Err(ValueObjectError::InvalidInput(m))
                ==> m == Self::VALIDATION_ERROR,
    {
    }
}

impl AddressPart {
    /// An address part is accepted exactly when it takes at most 255 bytes of UTF-8, and kept as
    /// given.
    pub proof fn lemma_parse(text: Seq<char>)
        ensures
            spec_parse_required::<AddressPart>(text) is Ok
                <==> !is_blank(text) && utf8_len(text) <= 255,
            spec_parse_required::<AddressPart>(text) matches Ok(v) ==> v == text,
            is_blank(text)
                ==> spec_parse_required::<AddressPart>(text) == Err::<Seq<char>, _>(
                    ValueObjectError::Required,
                ),
            spec_parse_required::<AddressPart>(text) matches Err(ValueObjectError::InvalidInput(m))
                ==> m == Self::VALIDATION_ERROR,
    {
    }
}

} // verus!
