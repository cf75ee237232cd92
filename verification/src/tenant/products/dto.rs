//! The product form: raw text in, validated product input or a report of
//! the refused fields out. A product names either an existing unit of
//! measure or, with the choice `other`, a new one.

use crate::common::text::text_eq;
use crate::common::types::UuidVO;
use crate::common::value_object::{
    error_message, opt_text, spec_parse_optional, spec_parse_required, ValueObjectError,
    ValueObjectOptional, ValueObjectRequired,
};
use crate::tenant::customers::dto::{string_or_empty, text_or_empty};
use crate::tenant::products::types::{ProductDescription, ProductName, ProductStatus, UnitsOfMeasure};
use vstd::prelude::*;

verus! {

/// The product form as it arrives.
#[derive(Clone, Debug)]
pub struct ProductUserInputHelper {
    pub id: Option<String>,
    pub name: String,
    pub description: String,
    pub unit_of_measure_id: String,
    pub new_unit_of_measure: String,
    pub status: String,
}

/// The message of each refused field of a product form.
#[derive(Debug, Default, PartialEq)]
pub struct ProductUserInputError {
    pub id: Option<String>,
    pub name: Option<String>,
    pub description: Option<String>,
    pub unit_of_measure_id: Option<String>,
    pub new_unit_of_measure: Option<String>,
    pub status: Option<String>,
}

impl vstd::std_specs::convert::FromSpecImpl<ValueObjectError> for ProductUserInputError {
    open spec fn obeys_from_spec() -> bool {
        true
    }

    /// A value error turns into a report that names no field.
    open spec fn from_spec(v: ValueObjectError) -> Self {
        ProductUserInputError {
            id: None,
            name: None,
            description: None,
            unit_of_measure_id: None,
            new_unit_of_measure: None,
            status: None,
        }
    }
}

impl From<ValueObjectError> for ProductUserInputError {
    fn from(_value: ValueObjectError) -> Self {
        ProductUserInputError {
            id: None,
            name: None,
            description: None,
            unit_of_measure_id: None,
            new_unit_of_measure: None,
            status: None,
        }
    }
}

impl ProductUserInputError {
    /// No field is refused, the new unit of measure not counted.
    pub open spec fn spec_is_empty(&self) -> bool {
        &&& self.id is None
        &&& self.name is None
        &&& self.description is None
        &&& self.unit_of_measure_id is None
        &&& self.status is None
    }

    /// Whether no field is refused, the new unit of measure not counted.
    pub fn is_empty(&self) -> (r: bool)
        ensures
            r == self.spec_is_empty(),
    {
        self.id.is_none() && self.name.is_none() && self.description.is_none()
            && self.unit_of_measure_id.is_none() && self.status.is_none()
    }

    /// The fields hold the messages the form earns: each refused field its
    /// own message, except that a form whose other fields all pass reports
    /// nothing, not even a refused new unit of measure.
    pub open spec fn reports(&self, value: ProductUserInputHelper) -> bool {
        if value.spec_core_accepted() {
            &&& self.spec_is_empty()
            &&& self.new_unit_of_measure is None
        } else {
            &&& opt_text(self.id) == error_message(value.spec_id())
            &&& opt_text(self.name) == error_message(value.spec_name())
            &&& opt_text(self.description) == error_message(value.spec_description())
            &&& opt_text(self.unit_of_measure_id) == error_message(value.spec_unit_of_measure_id())
            &&& opt_text(self.new_unit_of_measure) == error_message(
                value.spec_new_unit_of_measure(),
            )
            &&& opt_text(self.status) == error_message(value.spec_status())
        }
    }
}

impl ProductUserInputHelper {
    /// The identifier: optional, a UUID when given.
    pub open spec fn spec_id(self) -> Result<Option<Seq<char>>, ValueObjectError> {
        spec_parse_optional::<UuidVO>(text_or_empty(self.id))
    }

    /// The name: required.
    pub open spec fn spec_name(self) -> Result<Seq<char>, ValueObjectError> {
        spec_parse_required::<ProductName>(self.name@)
    }

    /// The status: required.
    pub open spec fn spec_status(self) -> Result<Seq<char>, ValueObjectError> {
        spec_parse_required::<ProductStatus>(self.status@)
    }

    /// The description: optional.
    pub open spec fn spec_description(self) -> Result<Option<Seq<char>>, ValueObjectError> {
        spec_parse_optional::<ProductDescription>(self.description@)
    }

    /// The existing unit of measure: a required UUID, unless the choice is
    /// `other`.
    pub open spec fn spec_unit_of_measure_id(self) -> Result<Option<Seq<char>>, ValueObjectError> {
        if self.unit_of_measure_id@ != "other"@ {
            match spec_parse_required::<UuidVO>(self.unit_of_measure_id@) {
                Ok(t) => Ok(Some(t)),
                Err(e) => Err(e),
            }
        } else {
            Ok(None)
        }
    }

    /// The new unit of measure: required unless an existing unit was
    /// accepted.
    pub open spec fn spec_new_unit_of_measure(self) -> Result<Option<Seq<char>>, ValueObjectError> {
        match self.spec_unit_of_measure_id() {
            Ok(Some(_)) => Ok(None),
            _ => match spec_parse_required::<UnitsOfMeasure>(self.new_unit_of_measure@) {
                Ok(t) => Ok(Some(t)),
                Err(e) => Err(e),
            },
        }
    }

    /// Every field but the new unit of measure is accepted.
    pub open spec fn spec_core_accepted(self) -> bool {
        &&& self.spec_id() is Ok
        &&& self.spec_name() is Ok
        &&& self.spec_description() is Ok
        &&& self.spec_unit_of_measure_id() is Ok
        &&& self.spec_status() is Ok
    }

    /// Every field of the form is accepted.
    pub open spec fn spec_accepted(self) -> bool {
        &&& self.spec_core_accepted()
        &&& self.spec_new_unit_of_measure() is Ok
    }
}

/// A validated product form.
#[derive(Debug, Clone, PartialEq)]
pub struct ProductUserInput {
    pub id: ValueObjectOptional<UuidVO>,
    pub name: ValueObjectRequired<ProductName>,
    pub description: ValueObjectOptional<ProductDescription>,
    pub unit_of_measure_id: Option<ValueObjectRequired<UuidVO>>,
    pub new_unit_of_measure: Option<ValueObjectRequired<UnitsOfMeasure>>,
    pub status: ValueObjectRequired<ProductStatus>,
}

impl ProductUserInput {
    /// Each field holds what its form field gave.
    pub open spec fn holds(&self, value: ProductUserInputHelper) -> bool {
        &&& value.spec_id() == Ok::<Option<Seq<char>>, ValueObjectError>(self.id@)
        &&& value.spec_name() == Ok::<Seq<char>, ValueObjectError>(self.name@)
        &&& value.spec_description() == Ok::<Option<Seq<char>>, ValueObjectError>(
            self.description@,
        )
        &&& value.spec_unit_of_measure_id() == Ok::<Option<Seq<char>>, ValueObjectError>(
            match self.unit_of_measure_id {
                Some(u) => Some(u@),
                None => None,
            },
        )
        &&& value.spec_new_unit_of_measure() == Ok::<Option<Seq<char>>, ValueObjectError>(
            match self.new_unit_of_measure {
                Some(u) => Some(u@),
                None => None,
            },
        )
        &&& value.spec_status() == Ok::<Seq<char>, ValueObjectError>(self.status@)
    }

    /// Validates a product form. Every field is checked; the form is
    /// accepted when no field is refused. A refused new unit of measure on
    /// a form whose other fields pass gives an error that names no field.
    pub fn from_helper(value: ProductUserInputHelper) -> (r: Result<Self, ProductUserInputError>)
        ensures
            r is Ok <==> value.spec_accepted(),
            r matches Ok(v) ==> v.holds(value),
            r matches Err(e) ==> e.reports(value),
    {
        let mut error = ProductUserInputError {
            id: None,
            name: None,
            description: None,
            unit_of_measure_id: None,
            new_unit_of_measure: None,
            status: None,
        };
        let id_text = string_or_empty(value.id);
        let id = ValueObjectOptional::<UuidVO>::parse(id_text.as_str());
        if let Err(e) = &id {
            error.id = Some(e.to_string());
        }
        let name = ValueObjectRequired::<ProductName>::parse(value.name.as_str());
        if let Err(e) = &name {
            error.name = Some(e.to_string());
        }
        let status = ValueObjectRequired::<ProductStatus>::parse(value.status.as_str());
        if let Err(e) = &status {
            error.status = Some(e.to_string());
        }
        let description = ValueObjectOptional::<ProductDescription>::parse(
            value.description.as_str(),
        );
        if let Err(e) = &description {
            error.description = Some(e.to_string());
        }
        let unit_of_measure_id = if !text_eq(value.unit_of_measure_id.as_str(), "other") {
            match ValueObjectRequired::<UuidVO>::parse(value.unit_of_measure_id.as_str()) {
                Ok(u) => Ok(Some(u)),
                Err(e) => {
                    error.unit_of_measure_id = Some(e.to_string());
                    Err(e)
                },
            }
        } else {
            Ok(None)
        };
        let existing_unit = match &unit_of_measure_id {
            Ok(Some(_)) => true,
            _ => false,
        };
        let new_unit_of_measure = if existing_unit {
            Ok(None)
        } else {
            match ValueObjectRequired::<UnitsOfMeasure>::parse(value.new_unit_of_measure.as_str()) {
                Ok(u) => Ok(Some(u)),
                Err(e) => {
                    error.new_unit_of_measure = Some(e.to_string());
                    Err(e)
                },
            }
        };
        if error.is_empty() {
            match (id, name, description, unit_of_measure_id, new_unit_of_measure, status) {
                (
                    Ok(id),
                    Ok(name),
                    Ok(description),
                    Ok(unit_of_measure_id),
                    Ok(new_unit_of_measure),
                    Ok(status),
                ) => Ok(ProductUserInput {
                    id,
                    name,
                    description,
                    unit_of_measure_id,
                    new_unit_of_measure,
                    status,
                }),
                (_, _, _, _, Err(e), _) => Err(ProductUserInputError::from(e)),
                _ => Err(error),
            }
        } else {
            Err(error)
        }
    }
}

impl vstd::std_specs::convert::TryFromSpecImpl<ProductUserInputHelper> for ProductUserInput {
    /// What the conversion gives is stated by `from_helper`, not here.
    open spec fn obeys_try_from_spec() -> bool {
        false
    }

    open spec fn try_from_spec(v: ProductUserInputHelper) -> Result<Self, ProductUserInputError> {
        arbitrary()
    }
}

impl TryFrom<ProductUserInputHelper> for ProductUserInput {
    type Error = ProductUserInputError;

    fn try_from(value: ProductUserInputHelper) -> (r: Result<Self, Self::Error>)
        ensures
            r is Ok <==> value.spec_accepted(),
            r matches Ok(v) ==> v.holds(value),
            r matches Err(e) ==> e.reports(value),
    {
        Self::from_helper(value)
    }
}

} // verus!
