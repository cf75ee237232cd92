//! The stock form: raw text in, validated stock input or a report of every
//! refused field out.

use crate::common::types::{CurrencyCode, Integer32, UuidVO};
use crate::common::value_object::{
    error_message, opt_text, spec_parse_optional, spec_parse_required, ValueObjectError,
    ValueObjectOptional, ValueObjectRequired,
};
use crate::tenant::customers::dto::{string_or_empty, text_or_empty};
use crate::tenant::inventory::types::InventoryStatus;
use vstd::prelude::*;

verus! {

/// The stock form as it arrives.
#[derive(Clone, Debug)]
pub struct InventoryUserInputHelper {
    pub id: Option<String>,
    pub product_id: String,
    pub warehouse_id: String,
    pub minimum_stock: String,
    pub maximum_stock: String,
    pub currency_code: String,
    pub status: String,
}

/// The message of each refused field of a stock form.
#[derive(Debug, Default, PartialEq)]
pub struct InventoryUserInputError {
    pub id: Option<String>,
    pub product_id: Option<String>,
    pub warehouse_id: Option<String>,
    pub minimum_stock: Option<String>,
    pub maximum_stock: Option<String>,
    pub currency_code: Option<String>,
    pub status: Option<String>,
}

impl vstd::std_specs::convert::FromSpecImpl<ValueObjectError> for InventoryUserInputError {
    open spec fn obeys_from_spec() -> bool {
        true
    }

    /// A value error turns into a report that names no field.
    open spec fn from_spec(v: ValueObjectError) -> Self {
        InventoryUserInputError {
            id: None,
            product_id: None,
            warehouse_id: None,
            minimum_stock: None,
            maximum_stock: None,
            currency_code: None,
            status: None,
        }
    }
}

impl From<ValueObjectError> for InventoryUserInputError {
    fn from(_value: ValueObjectError) -> Self {
        InventoryUserInputError {
            id: None,
            product_id: None,
            warehouse_id: None,
            minimum_stock: None,
            maximum_stock: None,
            currency_code: None,
            status: None,
        }
    }
}

impl InventoryUserInputError {
    /// No field is refused.
    pub open spec fn spec_is_empty(&self) -> bool {
        &&& self.id is None
        &&& self.product_id is None
        &&& self.warehouse_id is None
        &&& self.minimum_stock is None
        &&& self.maximum_stock is None
        &&& self.currency_code is None
        &&& self.status is None
    }

    /// Whether no field is refused.
    pub fn is_empty(&self) -> (r: bool)
        ensures
            r == self.spec_is_empty(),
    {
        self.id.is_none() && self.product_id.is_none() && self.warehouse_id.is_none()
            && self.minimum_stock.is_none() && self.maximum_stock.is_none()
            && self.currency_code.is_none() && self.status.is_none()
    }

    /// Each field holds the message of what its form field gave.
    pub open spec fn reports(&self, value: InventoryUserInputHelper) -> bool {
        &&& opt_text(self.id) == error_message(value.spec_id())
        &&& opt_text(self.product_id) == error_message(value.spec_product_id())
        &&& opt_text(self.warehouse_id) == error_message(value.spec_warehouse_id())
        &&& opt_text(self.minimum_stock) == error_message(value.spec_minimum_stock())
        &&& opt_text(self.maximum_stock) == error_message(value.spec_maximum_stock())
        &&& opt_text(self.currency_code) == error_message(value.spec_currency_code())
        &&& opt_text(self.status) == error_message(value.spec_status())
    }
}

impl InventoryUserInputHelper {
    /// The identifier: optional, a UUID when given.
    pub open spec fn spec_id(self) -> Result<Option<Seq<char>>, ValueObjectError> {
        spec_parse_optional::<UuidVO>(text_or_empty(self.id))
    }

    /// The product: a required UUID.
    pub open spec fn spec_product_id(self) -> Result<Seq<char>, ValueObjectError> {
        spec_parse_required::<UuidVO>(self.product_id@)
    }

    /// The warehouse: a required UUID.
    pub open spec fn spec_warehouse_id(self) -> Result<Seq<char>, ValueObjectError> {
        spec_parse_required::<UuidVO>(self.warehouse_id@)
    }

    /// The minimum stock: an optional whole number.
    pub open spec fn spec_minimum_stock(self) -> Result<Option<Seq<char>>, ValueObjectError> {
        spec_parse_optional::<Integer32>(self.minimum_stock@)
    }

    /// The maximum stock: an optional whole number.
    pub open spec fn spec_maximum_stock(self) -> Result<Option<Seq<char>>, ValueObjectError> {
        spec_parse_optional::<Integer32>(self.maximum_stock@)
    }

    /// The currency: a required currency code.
    pub open spec fn spec_currency_code(self) -> Result<Seq<char>, ValueObjectError> {
        spec_parse_required::<CurrencyCode>(self.currency_code@)
    }

    /// The status: required.
    pub open spec fn spec_status(self) -> Result<Seq<char>, ValueObjectError> {
        spec_parse_required::<InventoryStatus>(self.status@)
    }

    /// Every field of the form is accepted.
    pub open spec fn spec_accepted(self) -> bool {
        &&& self.spec_id() is Ok
        &&& self.spec_product_id() is Ok
        &&& self.spec_warehouse_id() is Ok
        &&& self.spec_minimum_stock() is Ok
        &&& self.spec_maximum_stock() is Ok
        &&& self.spec_currency_code() is Ok
        &&& self.spec_status() is Ok
    }
}

/// A validated stock form.
#[derive(Debug, Clone, PartialEq)]
pub struct InventoryUserInput {
    pub id: ValueObjectOptional<UuidVO>,
    pub product_id: ValueObjectRequired<UuidVO>,
    pub warehouse_id: ValueObjectRequired<UuidVO>,
    pub minimum_stock: ValueObjectOptional<Integer32>,
    pub maximum_stock: ValueObjectOptional<Integer32>,
    pub currency_code: ValueObjectRequired<CurrencyCode>,
    pub status: ValueObjectRequired<InventoryStatus>,
}

impl InventoryUserInput {
    /// Each field holds what its form field gave.
    pub open spec fn holds(&self, value: InventoryUserInputHelper) -> bool {
        &&& value.spec_id() == Ok::<Option<Seq<char>>, ValueObjectError>(self.id@)
        &&& value.spec_product_id() == Ok::<Seq<char>, ValueObjectError>(self.product_id@)
        &&& value.spec_warehouse_id() == Ok::<Seq<char>, ValueObjectError>(self.warehouse_id@)
        &&& value.spec_minimum_stock() == Ok::<Option<Seq<char>>, ValueObjectError>(
            self.minimum_stock@,
        )
        &&& value.spec_maximum_stock() == Ok::<Option<Seq<char>>, ValueObjectError>(
            self.maximum_stock@,
        )
        &&& value.spec_currency_code() == Ok::<Seq<char>, ValueObjectError>(self.currency_code@)
        &&& value.spec_status() == Ok::<Seq<char>, ValueObjectError>(self.status@)
    }

    /// Validates a stock form. Every field is checked; the form is accepted
    /// when no field is refused, and otherwise the error names the message
    /// of each refused field.
    pub fn from_helper(value: InventoryUserInputHelper) -> (r: Result<Self, InventoryUserInputError>)
        ensures
            r is Ok <==> value.spec_accepted(),
            r matches Ok(v) ==> v.holds(value),
            r matches Err(e) ==> e.reports(value) && !e.spec_is_empty(),
    {
        let mut error = InventoryUserInputError {
            id: None,
            product_id: None,
            warehouse_id: None,
            minimum_stock: None,
            maximum_stock: None,
            currency_code: None,
            status: None,
        };
        let id_text = string_or_empty(value.id);
        let id = ValueObjectOptional::<UuidVO>::parse(id_text.as_str());
        if let Err(e) = &id {
            error.id = Some(e.to_string());
        }
        let product_id = ValueObjectRequired::<UuidVO>::parse(value.product_id.as_str());
        if let Err(e) = &product_id {
            error.product_id = Some(e.to_string());
        }
        let warehouse_id = ValueObjectRequired::<UuidVO>::parse(value.warehouse_id.as_str());
        if let Err(e) = &warehouse_id {
            error.warehouse_id = Some(e.to_string());
        }
        let minimum_stock = ValueObjectOptional::<Integer32>::parse(value.minimum_stock.as_str());
        if let Err(e) = &minimum_stock {
            error.minimum_stock = Some(e.to_string());
        }
        let maximum_stock = ValueObjectOptional::<Integer32>::parse(value.maximum_stock.as_str());
        if let Err(e) = &maximum_stock {
            error.maximum_stock = Some(e.to_string());
        }
        let status = ValueObjectRequired::<InventoryStatus>::parse(value.status.as_str());
        if let Err(e) = &status {
            error.status = Some(e.to_string());
        }
        let currency_code = ValueObjectRequired::<CurrencyCode>::parse(
            value.currency_code.as_str(),
        );
        if let Err(e) = &currency_code {
            error.currency_code = Some(e.to_string());
        }
        if error.is_empty() {
            match (id, product_id, warehouse_id, minimum_stock, maximum_stock, currency_code, status) {
                (
                    Ok(id),
                    Ok(product_id),
                    Ok(warehouse_id),
                    Ok(minimum_stock),
                    Ok(maximum_stock),
                    Ok(currency_code),
                    Ok(status),
                ) => Ok(InventoryUserInput {
                    id,
                    product_id,
                    warehouse_id,
                    minimum_stock,
                    maximum_stock,
                    currency_code,
                    status,
                }),
                _ => Err(error),
            }
        } else {
            Err(error)
        }
    }
}

impl vstd::std_specs::convert::TryFromSpecImpl<InventoryUserInputHelper> for InventoryUserInput {
    /// What the conversion gives is stated by `from_helper`, not here.
    open spec fn obeys_try_from_spec() -> bool {
        false
    }

    open spec fn try_from_spec(v: InventoryUserInputHelper) -> Result<Self, InventoryUserInputError> {
        arbitrary()
    }
}

impl TryFrom<InventoryUserInputHelper> for InventoryUserInput {
    type Error = InventoryUserInputError;

    fn try_from(value: InventoryUserInputHelper) -> (r: Result<Self, Self::Error>)
        ensures
            r is Ok <==> value.spec_accepted(),
            r matches Ok(v) ==> v.holds(value),
            r matches Err(e) ==> e.reports(value) && !e.spec_is_empty(),
    {
        Self::from_helper(value)
    }
}

} // verus!
