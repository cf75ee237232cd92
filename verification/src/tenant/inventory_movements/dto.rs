//! The stock movement form: raw text in, validated movement input or a
//! report of every refused field out.

use crate::common::types::{Float64, Quantity, UuidVO};
use crate::common::value_object::{
    error_message, opt_text, spec_parse_optional, spec_parse_required, ValueObjectError,
    ValueObjectOptional, ValueObjectRequired,
};
use crate::common::text::text_eq;
use crate::tenant::customers::dto::{string_or_empty, text_or_empty};
use crate::tenant::inventory_movements::types::{InventoryMovementType, InventoryReferenceType};
use vstd::prelude::*;

verus! {

/// The stock movement form as it arrives.
#[derive(Clone, Debug)]
pub struct InventoryMovementUserInputHelper {
    pub id: Option<String>,
    pub inventory_id: String,
    pub movement_type: String,
    pub quantity: String,
    pub reference_type: String,
    pub reference_id: String,
    pub unit_price: String,
    pub total_price: String,
    pub tax_id: String,
}

/// The message of each refused field of a stock movement form.
#[derive(Debug, Default, PartialEq)]
pub struct InventoryMovementUserInputError {
    pub id: Option<String>,
    pub inventory_id: Option<String>,
    pub movement_type: Option<String>,
    pub quantity: Option<String>,
    pub reference_type: Option<String>,
    pub reference_id: Option<String>,
    pub unit_price: Option<String>,
    pub total_price: Option<String>,
    pub tax_id: Option<String>,
}

impl vstd::std_specs::convert::FromSpecImpl<ValueObjectError> for InventoryMovementUserInputError {
    open spec fn obeys_from_spec() -> bool {
        true
    }

    /// A value error turns into a report that names no field.
    open spec fn from_spec(v: ValueObjectError) -> Self {
        InventoryMovementUserInputError {
            id: None,
            inventory_id: None,
            movement_type: None,
            quantity: None,
            reference_type: None,
            reference_id: None,
            unit_price: None,
            total_price: None,
            tax_id: None,
        }
    }
}

impl From<ValueObjectError> for InventoryMovementUserInputError {
    fn from(_value: ValueObjectError) -> Self {
        InventoryMovementUserInputError {
            id: None,
            inventory_id: None,
            movement_type: None,
            quantity: None,
            reference_type: None,
            reference_id: None,
            unit_price: None,
            total_price: None,
            tax_id: None,
        }
    }
}

impl InventoryMovementUserInputError {
    /// No field is refused.
    pub open spec fn spec_is_empty(&self) -> bool {
        &&& self.id is None
        &&& self.inventory_id is None
        &&& self.movement_type is None
        &&& self.quantity is None
        &&& self.reference_type is None
        &&& self.reference_id is None
        &&& self.unit_price is None
        &&& self.total_price is None
        &&& self.tax_id is None
    }

    /// Whether no field is refused.
    pub fn is_empty(&self) -> (r: bool)
        ensures
            r == self.spec_is_empty(),
    {
        self.id.is_none() && self.inventory_id.is_none() && self.movement_type.is_none()
            && self.quantity.is_none() && self.reference_type.is_none()
            && self.reference_id.is_none() && self.unit_price.is_none()
            && self.total_price.is_none() && self.tax_id.is_none()
    }

    /// Each field holds the message of what its form field gave.
    pub open spec fn reports(&self, value: InventoryMovementUserInputHelper) -> bool {
        &&& opt_text(self.id) == error_message(value.spec_id())
        &&& opt_text(self.inventory_id) == error_message(value.spec_inventory_id())
        &&& opt_text(self.movement_type) == error_message(value.spec_movement_type())
        &&& opt_text(self.quantity) == error_message(value.spec_quantity())
        &&& opt_text(self.reference_type) == error_message(value.spec_reference_type())
        &&& opt_text(self.reference_id) == error_message(value.spec_reference_id())
        &&& opt_text(self.unit_price) == error_message(value.spec_unit_price())
        &&& opt_text(self.total_price) == error_message(value.spec_total_price())
        &&& opt_text(self.tax_id) == error_message(value.spec_tax_id())
    }
}

impl InventoryMovementUserInputHelper {
    /// The identifier: optional, a UUID when given.
    pub open spec fn spec_id(self) -> Result<Option<Seq<char>>, ValueObjectError> {
        spec_parse_optional::<UuidVO>(text_or_empty(self.id))
    }

    /// The stock record: a required UUID.
    pub open spec fn spec_inventory_id(self) -> Result<Seq<char>, ValueObjectError> {
        spec_parse_required::<UuidVO>(self.inventory_id@)
    }

    /// The tax: a required UUID.
    pub open spec fn spec_tax_id(self) -> Result<Seq<char>, ValueObjectError> {
        spec_parse_required::<UuidVO>(self.tax_id@)
    }

    /// The direction: required.
    pub open spec fn spec_movement_type(self) -> Result<Seq<char>, ValueObjectError> {
        spec_parse_required::<InventoryMovementType>(self.movement_type@)
    }

    /// The quantity: required.
    pub open spec fn spec_quantity(self) -> Result<Seq<char>, ValueObjectError> {
        spec_parse_required::<Quantity>(self.quantity@)
    }

    /// The referred document: an optional UUID.
    pub open spec fn spec_reference_id(self) -> Result<Option<Seq<char>>, ValueObjectError> {
        spec_parse_optional::<UuidVO>(self.reference_id@)
    }

    /// The kind of the referred document: required when a document is
    /// referred to, not read otherwise.
    pub open spec fn spec_reference_type(self) -> Result<Option<Seq<char>>, ValueObjectError> {
        match self.spec_reference_id() {
            Ok(Some(_)) => match spec_parse_required::<InventoryReferenceType>(
                self.reference_type@,
            ) {
                Ok(t) => Ok(Some(t)),
                Err(e) => Err(e),
            },
            _ => Ok(None),
        }
    }

    /// The unit price: an optional number.
    pub open spec fn spec_unit_price(self) -> Result<Option<Seq<char>>, ValueObjectError> {
        spec_parse_optional::<Float64>(self.unit_price@)
    }

    /// The total price: an optional number.
    pub open spec fn spec_total_price(self) -> Result<Option<Seq<char>>, ValueObjectError> {
        spec_parse_optional::<Float64>(self.total_price@)
    }

    /// Every field of the form is accepted.
    pub open spec fn spec_accepted(self) -> bool {
        &&& self.spec_id() is Ok
        &&& self.spec_inventory_id() is Ok
        &&& self.spec_movement_type() is Ok
        &&& self.spec_quantity() is Ok
        &&& self.spec_reference_type() is Ok
        &&& self.spec_reference_id() is Ok
        &&& self.spec_unit_price() is Ok
        &&& self.spec_total_price() is Ok
        &&& self.spec_tax_id() is Ok
    }
}

/// A validated stock movement form.
#[derive(Debug, Clone, PartialEq)]
pub struct InventoryMovementUserInput {
    pub id: ValueObjectOptional<UuidVO>,
    pub inventory_id: ValueObjectRequired<UuidVO>,
    pub movement_type: ValueObjectRequired<InventoryMovementType>,
    pub quantity: ValueObjectRequired<Quantity>,
    pub reference_type: Option<ValueObjectRequired<InventoryReferenceType>>,
    pub reference_id: ValueObjectOptional<UuidVO>,
    pub unit_price: ValueObjectOptional<Float64>,
    pub total_price: ValueObjectOptional<Float64>,
    pub tax_id: ValueObjectRequired<UuidVO>,
}

impl InventoryMovementUserInput {
    /// Each field holds what its form field gave.
    pub open spec fn holds(&self, value: InventoryMovementUserInputHelper) -> bool {
        &&& value.spec_id() == Ok::<Option<Seq<char>>, ValueObjectError>(self.id@)
        &&& value.spec_inventory_id() == Ok::<Seq<char>, ValueObjectError>(self.inventory_id@)
        &&& value.spec_movement_type() == Ok::<Seq<char>, ValueObjectError>(self.movement_type@)
        &&& value.spec_quantity() == Ok::<Seq<char>, ValueObjectError>(self.quantity@)
        &&& value.spec_reference_type() == Ok::<Option<Seq<char>>, ValueObjectError>(
            match self.reference_type {
                Some(t) => Some(t@),
                None => None,
            },
        )
        &&& value.spec_reference_id() == Ok::<Option<Seq<char>>, ValueObjectError>(
            self.reference_id@,
        )
        &&& value.spec_unit_price() == Ok::<Option<Seq<char>>, ValueObjectError>(
            self.unit_price@,
        )
        &&& value.spec_total_price() == Ok::<Option<Seq<char>>, ValueObjectError>(
            self.total_price@,
        )
        &&& value.spec_tax_id() == Ok::<Seq<char>, ValueObjectError>(self.tax_id@)
    }

    /// Validates a stock movement form. Every field is checked; the form is
    /// accepted when no field is refused, and otherwise the error names the
    /// message of each refused field.
    pub fn from_helper(value: InventoryMovementUserInputHelper) -> (r: Result<
        Self,
        InventoryMovementUserInputError,
    >)
        ensures
            r is Ok <==> value.spec_accepted(),
            r matches Ok(v) ==> v.holds(value),
            r matches Err(e) ==> e.reports(value) && !e.spec_is_empty(),
    {
        let mut error = InventoryMovementUserInputError {
            id: None,
            inventory_id: None,
            movement_type: None,
            quantity: None,
            reference_type: None,
            reference_id: None,
            unit_price: None,
            total_price: None,
            tax_id: None,
        };
        let id_text = string_or_empty(value.id);
        let id = ValueObjectOptional::<UuidVO>::parse(id_text.as_str());
        if let Err(e) = &id {
            error.id = Some(e.to_string());
        }
        let inventory_id = ValueObjectRequired::<UuidVO>::parse(value.inventory_id.as_str());
        if let Err(e) = &inventory_id {
            error.inventory_id = Some(e.to_string());
        }
        let tax_id = ValueObjectRequired::<UuidVO>::parse(value.tax_id.as_str());
        if let Err(e) = &tax_id {
            error.tax_id = Some(e.to_string());
        }
        let movement_type = ValueObjectRequired::<InventoryMovementType>::parse(
            value.movement_type.as_str(),
        );
        if let Err(e) = &movement_type {
            error.movement_type = Some(e.to_string());
        }
        let quantity = ValueObjectRequired::<Quantity>::parse(value.quantity.as_str());
        if let Err(e) = &quantity {
            error.quantity = Some(e.to_string());
        }
        let reference_id = ValueObjectOptional::<UuidVO>::parse(value.reference_id.as_str());
        if let Err(e) = &reference_id {
            error.reference_id = Some(e.to_string());
        }
        let refers = match &reference_id {
            Ok(r) => r.is_present(),
            Err(_) => false,
        };
        let reference_type = if refers {
            match ValueObjectRequired::<InventoryReferenceType>::parse(
                value.reference_type.as_str(),
            ) {
                Ok(t) => Ok(Some(t)),
                Err(e) => {
                    error.reference_type = Some(e.to_string());
                    Err(e)
                },
            }
        } else {
            Ok(None)
        };
        let unit_price = ValueObjectOptional::<Float64>::parse(value.unit_price.as_str());
        if let Err(e) = &unit_price {
            error.unit_price = Some(e.to_string());
        }
        let total_price = ValueObjectOptional::<Float64>::parse(value.total_price.as_str());
        if let Err(e) = &total_price {
            error.total_price = Some(e.to_string());
        }
        if error.is_empty() {
            match (
                id,
                inventory_id,
                movement_type,
                quantity,
                reference_type,
                reference_id,
                unit_price,
                total_price,
                tax_id,
            ) {
                (
                    Ok(id),
                    Ok(inventory_id),
                    Ok(movement_type),
                    Ok(quantity),
                    Ok(reference_type),
                    Ok(reference_id),
                    Ok(unit_price),
                    Ok(total_price),
                    Ok(tax_id),
                ) => Ok(InventoryMovementUserInput {
                    id,
                    inventory_id,
                    movement_type,
                    quantity,
                    reference_type,
                    reference_id,
                    unit_price,
                    total_price,
                    tax_id,
                }),
                _ => Err(error),
            }
        } else {
            Err(error)
        }
    }
}

impl InventoryMovementUserInput {
    /// Whether the movement takes stock out; its quantity is then stored
    /// negated.
    pub fn takes_stock_out(&self) -> (r: bool)
        ensures
            r == (self.movement_type@ == "out"@),
    {
        match self.movement_type.as_str() {
            Ok(t) => text_eq(t, "out"),
            Err(_) => false,
        }
    }
}

impl vstd::std_specs::convert::TryFromSpecImpl<InventoryMovementUserInputHelper> for InventoryMovementUserInput {
    /// What the conversion gives is stated by `from_helper`, not here.
    open spec fn obeys_try_from_spec() -> bool {
        false
    }

    open spec fn try_from_spec(v: InventoryMovementUserInputHelper) -> Result<
        Self,
        InventoryMovementUserInputError,
    > {
        arbitrary()
    }
}

impl TryFrom<InventoryMovementUserInputHelper> for InventoryMovementUserInput {
    type Error = InventoryMovementUserInputError;

    fn try_from(value: InventoryMovementUserInputHelper) -> (r: Result<Self, Self::Error>)
        ensures
            r is Ok <==> value.spec_accepted(),
            r matches Ok(v) ==> v.holds(value),
            r matches Err(e) ==> e.reports(value) && !e.spec_is_empty(),
    {
        Self::from_helper(value)
    }
}

/// The query of a list of stock movements: the stock record they belong to and an
/// optional search text.
#[derive(Debug, Clone, PartialEq)]
pub struct InventoryMovementsRawQuery {
    inventory_id: u128,
    q: Option<String>,
}

impl InventoryMovementsRawQuery {
    /// A query for the given stock record and search text.
    pub fn new(inventory_id: u128, q: Option<String>) -> (r: Self)
        ensures
            r.spec_inventory_id() == inventory_id,
            r.spec_q() == text_or_empty(q),
    {
        InventoryMovementsRawQuery { inventory_id, q }
    }

    /// The stock record asked about.
    pub closed spec fn spec_inventory_id(&self) -> u128 {
        self.inventory_id
    }

    /// The search text, empty when none was given.
    pub closed spec fn spec_q(&self) -> Seq<char> {
        text_or_empty(self.q)
    }

    /// The stock record asked about.
    pub fn inventory_id(&self) -> (r: u128)
        ensures
            r == self.spec_inventory_id(),
    {
        self.inventory_id
    }

    /// The search text, empty when none was given.
    pub fn q(&self) -> (r: &str)
        ensures
            r@ == self.spec_q(),
    {
        match &self.q {
            Some(v) => v.as_str(),
            None => {
                proof {
                    reveal_strlit("");
                }
                ""
            },
        }
    }
}

} // verus!
