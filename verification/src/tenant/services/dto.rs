//! The service form: raw text in, validated service input or a report of
//! every refused field out.

use crate::common::types::{CurrencyCode, UuidVO};
use crate::common::value_object::{
    error_message, opt_text, spec_parse_optional, spec_parse_required, ValueObjectError,
    ValueObjectOptional, ValueObjectRequired,
};
use crate::tenant::customers::dto::{string_or_empty, text_or_empty};
use crate::tenant::services::types::{DefaultPrice, ServiceDescription, ServiceName, ServiceStatus};
use vstd::prelude::*;

verus! {

/// The service form as it arrives.
#[derive(Clone, Debug)]
pub struct ServiceUserInputHelper {
    pub id: Option<String>,
    pub name: String,
    pub description: String,
    pub default_price: String,
    pub default_tax_id: String,
    pub currency_code: String,
    pub status: String,
}

/// The message of each refused field of a service form.
#[derive(Debug, Default, PartialEq)]
pub struct ServiceUserInputError {
    pub id: Option<String>,
    pub name: Option<String>,
    pub description: Option<String>,
    pub default_price: Option<String>,
    pub default_tax_id: Option<String>,
    pub currency_code: Option<String>,
    pub status: Option<String>,
}

impl vstd::std_specs::convert::FromSpecImpl<ValueObjectError> for ServiceUserInputError {
    open spec fn obeys_from_spec() -> bool {
        true
    }

    /// A value error turns into a report that names no field.
    open spec fn from_spec(v: ValueObjectError) -> Self {
        ServiceUserInputError {
            id: None,
            name: None,
            description: None,
            default_price: None,
            default_tax_id: None,
            currency_code: None,
            status: None,
        }
    }
}

impl From<ValueObjectError> for ServiceUserInputError {
    fn from(_value: ValueObjectError) -> Self {
        ServiceUserInputError {
            id: None,
            name: None,
            description: None,
            default_price: None,
            default_tax_id: None,
            currency_code: None,
            status: None,
        }
    }
}

impl ServiceUserInputError {
    /// No field is refused.
    pub open spec fn spec_is_empty(&self) -> bool {
        &&& self.id is None
        &&& self.name is None
        &&& self.description is None
        &&& self.default_price is None
        &&& self.default_tax_id is None
        &&& self.currency_code is None
        &&& self.status is None
    }

    /// Whether no field is refused.
    pub fn is_empty(&self) -> (r: bool)
        ensures
            r == self.spec_is_empty(),
    {
        self.id.is_none() && self.name.is_none() && self.description.is_none()
            && self.default_price.is_none() && self.default_tax_id.is_none()
            && self.currency_code.is_none() && self.status.is_none()
    }

    /// Each field holds the message of what its form field gave.
    pub open spec fn reports(&self, value: ServiceUserInputHelper) -> bool {
        &&& opt_text(self.id) == error_message(value.spec_id())
        &&& opt_text(self.name) == error_message(value.spec_name())
        &&& opt_text(self.description) == error_message(value.spec_description())
        &&& opt_text(self.default_price) == error_message(value.spec_default_price())
        &&& opt_text(self.default_tax_id) == error_message(value.spec_default_tax_id())
        &&& opt_text(self.currency_code) == error_message(value.spec_currency_code())
        &&& opt_text(self.status) == error_message(value.spec_status())
    }
}

impl ServiceUserInputHelper {
    /// The identifier: optional, a UUID when given.
    pub open spec fn spec_id(self) -> Result<Option<Seq<char>>, ValueObjectError> {
        spec_parse_optional::<UuidVO>(text_or_empty(self.id))
    }

    /// The name: required.
    pub open spec fn spec_name(self) -> Result<Seq<char>, ValueObjectError> {
        spec_parse_required::<ServiceName>(self.name@)
    }

    /// The description: optional.
    pub open spec fn spec_description(self) -> Result<Option<Seq<char>>, ValueObjectError> {
        spec_parse_optional::<ServiceDescription>(self.description@)
    }

    /// The default price: an optional number.
    pub open spec fn spec_default_price(self) -> Result<Option<Seq<char>>, ValueObjectError> {
        spec_parse_optional::<DefaultPrice>(self.default_price@)
    }

    /// The default tax: an optional UUID.
    pub open spec fn spec_default_tax_id(self) -> Result<Option<Seq<char>>, ValueObjectError> {
        spec_parse_optional::<UuidVO>(self.default_tax_id@)
    }

    /// The currency: an optional currency code.
    pub open spec fn spec_currency_code(self) -> Result<Option<Seq<char>>, ValueObjectError> {
        spec_parse_optional::<CurrencyCode>(self.currency_code@)
    }

    /// The status: required.
    pub open spec fn spec_status(self) -> Result<Seq<char>, ValueObjectError> {
        spec_parse_required::<ServiceStatus>(self.status@)
    }

    /// Every field of the form is accepted.
    pub open spec fn spec_accepted(self) -> bool {
        &&& self.spec_id() is Ok
        &&& self.spec_name() is Ok
        &&& self.spec_description() is Ok
        &&& self.spec_default_price() is Ok
        &&& self.spec_default_tax_id() is Ok
        &&& self.spec_currency_code() is Ok
        &&& self.spec_status() is Ok
    }
}

/// A validated service form.
#[derive(Debug, Clone, PartialEq)]
pub struct ServiceUserInput {
    pub id: ValueObjectOptional<UuidVO>,
    pub name: ValueObjectRequired<ServiceName>,
    pub description: ValueObjectOptional<ServiceDescription>,
    pub default_price: ValueObjectOptional<DefaultPrice>,
    pub default_tax_id: ValueObjectOptional<UuidVO>,
    pub currency_code: ValueObjectOptional<CurrencyCode>,
    pub status: ValueObjectRequired<ServiceStatus>,
}

impl ServiceUserInput {
    /// Each field holds what its form field gave.
    pub open spec fn holds(&self, value: ServiceUserInputHelper) -> bool {
        &&& value.spec_id() == Ok::<Option<Seq<char>>, ValueObjectError>(self.id@)
        &&& value.spec_name() == Ok::<Seq<char>, ValueObjectError>(self.name@)
        &&& value.spec_description() == Ok::<Option<Seq<char>>, ValueObjectError>(
            self.description@,
        )
        &&& value.spec_default_price() == Ok::<Option<Seq<char>>, ValueObjectError>(
            self.default_price@,
        )
        &&& value.spec_default_tax_id() == Ok::<Option<Seq<char>>, ValueObjectError>(
            self.default_tax_id@,
        )
        &&& value.spec_currency_code() == Ok::<Option<Seq<char>>, ValueObjectError>(
            self.currency_code@,
        )
        &&& value.spec_status() == Ok::<Seq<char>, ValueObjectError>(self.status@)
    }

    /// Validates a service form. Every field is checked; the form is
    /// accepted when no field is refused, and otherwise the error names the
    /// message of each refused field.
    pub fn from_helper(value: ServiceUserInputHelper) -> (r: Result<Self, ServiceUserInputError>)
        ensures
            r is Ok <==> value.spec_accepted(),
            r matches Ok(v) ==> v.holds(value),
            r matches Err(e) ==> e.reports(value) && !e.spec_is_empty(),
    {
        let mut error = ServiceUserInputError {
            id: None,
            name: None,
            description: None,
            default_price: None,
            default_tax_id: None,
            currency_code: None,
            status: None,
        };
        let id_text = string_or_empty(value.id);
        let id = ValueObjectOptional::<UuidVO>::parse(id_text.as_str());
        if let Err(e) = &id {
            error.id = Some(e.to_string());
        }
        let name = ValueObjectRequired::<ServiceName>::parse(value.name.as_str());
        if let Err(e) = &name {
            error.name = Some(e.to_string());
        }
        let description = ValueObjectOptional::<ServiceDescription>::parse(
            value.description.as_str(),
        );
        if let Err(e) = &description {
            error.description = Some(e.to_string());
        }
        let default_price = ValueObjectOptional::<DefaultPrice>::parse(
            value.default_price.as_str(),
        );
        if let Err(e) = &default_price {
            error.default_price = Some(e.to_string());
        }
        let default_tax_id = ValueObjectOptional::<UuidVO>::parse(value.default_tax_id.as_str());
        if let Err(e) = &default_tax_id {
            error.default_tax_id = Some(e.to_string());
        }
        let currency_code = ValueObjectOptional::<CurrencyCode>::parse(
            value.currency_code.as_str(),
        );
        if let Err(e) = &currency_code {
            error.currency_code = Some(e.to_string());
        }
        let status = ValueObjectRequired::<ServiceStatus>::parse(value.status.as_str());
        if let Err(e) = &status {
            error.status = Some(e.to_string());
        }
        if error.is_empty() {
            match (id, name, description, default_price, default_tax_id, currency_code, status) {
                (
                    Ok(id),
                    Ok(name),
                    Ok(description),
                    Ok(default_price),
                    Ok(default_tax_id),
                    Ok(currency_code),
                    Ok(status),
                ) => Ok(ServiceUserInput {
                    id,
                    name,
                    description,
                    default_price,
                    default_tax_id,
                    currency_code,
                    status,
                }),
                _ => Err(error),
            }
        } else {
            Err(error)
        }
    }
}

impl vstd::std_specs::convert::TryFromSpecImpl<ServiceUserInputHelper> for ServiceUserInput {
    /// What the conversion gives is stated by `from_helper`, not here.
    open spec fn obeys_try_from_spec() -> bool {
        false
    }

    open spec fn try_from_spec(v: ServiceUserInputHelper) -> Result<Self, ServiceUserInputError> {
        arbitrary()
    }
}

impl TryFrom<ServiceUserInputHelper> for ServiceUserInput {
    type Error = ServiceUserInputError;

    fn try_from(value: ServiceUserInputHelper) -> (r: Result<Self, Self::Error>)
        ensures
            r is Ok <==> value.spec_accepted(),
            r matches Ok(v) ==> v.holds(value),
            r matches Err(e) ==> e.reports(value) && !e.spec_is_empty(),
    {
        Self::from_helper(value)
    }
}

} // verus!
