//! The stock reservation form: raw text in, validated reservation input or
//! a report of every refused field out.

use crate::common::bindings::today_local;
use crate::common::types::{Quantity, UuidVO};
use crate::common::value_object::{
    error_message, opt_text, spec_parse_optional, spec_parse_required, ValueObjectError,
    ValueObjectOptional, ValueObjectRequired,
};
use crate::tenant::customers::dto::{string_or_empty, text_or_empty};
use crate::tenant::inventory_movements::types::InventoryReferenceType;
use crate::tenant::inventory_reservations::types::{
    CalendarDate, InventoryReservationsReservedUntil, InventoryReservationsStatus,
};
use vstd::prelude::*;

verus! {

/// The stock reservation form as it arrives.
#[derive(Clone, Debug)]
pub struct InventoryReservationUserInputHelper {
    pub id: Option<String>,
    pub inventory_id: String,
    pub quantity: String,
    pub reference_type: String,
    pub reference_id: String,
    pub reserved_until: String,
    pub status: String,
}

/// The message of each refused field of a stock reservation form.
#[derive(Debug, Default, PartialEq)]
pub struct InventoryReservationUserInputError {
    pub id: Option<String>,
    pub inventory_id: Option<String>,
    pub quantity: Option<String>,
    pub reference_type: Option<String>,
    pub reference_id: Option<String>,
    pub reserved_until: Option<String>,
    pub status: Option<String>,
}

impl vstd::std_specs::convert::FromSpecImpl<ValueObjectError> for InventoryReservationUserInputError {
    open spec fn obeys_from_spec() -> bool {
        true
    }

    /// A value error turns into a report that names no field.
    open spec fn from_spec(v: ValueObjectError) -> Self {
        InventoryReservationUserInputError {
            id: None,
            inventory_id: None,
            quantity: None,
            reference_type: None,
            reference_id: None,
            reserved_until: None,
            status: None,
        }
    }
}

impl From<ValueObjectError> for InventoryReservationUserInputError {
    fn from(_value: ValueObjectError) -> Self {
        InventoryReservationUserInputError {
            id: None,
            inventory_id: None,
            quantity: None,
            reference_type: None,
            reference_id: None,
            reserved_until: None,
            status: None,
        }
    }
}

impl InventoryReservationUserInputError {
    /// No field is refused.
    pub open spec fn spec_is_empty(&self) -> bool {
        &&& self.id is None
        &&& self.inventory_id is None
        &&& self.quantity is None
        &&& self.reference_type is None
        &&& self.reference_id is None
        &&& self.reserved_until is None
        &&& self.status is None
    }

    /// Whether no field is refused.
    pub fn is_empty(&self) -> (r: bool)
        ensures
            r == self.spec_is_empty(),
    {
        self.id.is_none() && self.inventory_id.is_none() && self.quantity.is_none()
            && self.reference_type.is_none() && self.reference_id.is_none()
            && self.reserved_until.is_none() && self.status.is_none()
    }

    /// Each field holds the message of what its form field gave, on the
    /// given today.
    pub open spec fn reports(
        &self,
        value: InventoryReservationUserInputHelper,
        today: CalendarDate,
    ) -> bool {
        &&& opt_text(self.id) == error_message(value.spec_id())
        &&& opt_text(self.inventory_id) == error_message(value.spec_inventory_id())
        &&& opt_text(self.quantity) == error_message(value.spec_quantity())
        &&& opt_text(self.reference_type) == error_message(value.spec_reference_type())
        &&& opt_text(self.reference_id) == error_message(value.spec_reference_id())
        &&& opt_text(self.reserved_until) == error_message(value.spec_reserved_until(today))
        &&& opt_text(self.status) == error_message(value.spec_status())
    }
}

impl InventoryReservationUserInputHelper {
    /// The identifier: optional, a UUID when given.
    pub open spec fn spec_id(self) -> Result<Option<Seq<char>>, ValueObjectError> {
        spec_parse_optional::<UuidVO>(text_or_empty(self.id))
    }

    /// The stock record: a required UUID.
    pub open spec fn spec_inventory_id(self) -> Result<Seq<char>, ValueObjectError> {
        spec_parse_required::<UuidVO>(self.inventory_id@)
    }

    /// The quantity: required.
    pub open spec fn spec_quantity(self) -> Result<Seq<char>, ValueObjectError> {
        spec_parse_required::<Quantity>(self.quantity@)
    }

    /// The referred document: an optional UUID.
    pub open spec fn spec_reference_id(self) -> Result<Option<Seq<char>>, ValueObjectError> {
        spec_parse_optional::<UuidVO>(self.reference_id@)
    }

    /// The kind of the referred document: optional.
    pub open spec fn spec_reference_type(self) -> Result<Option<Seq<char>>, ValueObjectError> {
        spec_parse_optional::<InventoryReferenceType>(self.reference_type@)
    }

    /// The last day: required, later than `today`.
    pub open spec fn spec_reserved_until(self, today: CalendarDate) -> Result<
        Seq<char>,
        ValueObjectError,
    > {
        InventoryReservationsReservedUntil::spec_parse_required_on(self.reserved_until@, today)
    }

    /// The status: required.
    pub open spec fn spec_status(self) -> Result<Seq<char>, ValueObjectError> {
        spec_parse_required::<InventoryReservationsStatus>(self.status@)
    }

    /// Every field of the form is accepted on the given today.
    pub open spec fn spec_accepted(self, today: CalendarDate) -> bool {
        &&& self.spec_id() is Ok
        &&& self.spec_inventory_id() is Ok
        &&& self.spec_quantity() is Ok
        &&& self.spec_reference_type() is Ok
        &&& self.spec_reference_id() is Ok
        &&& self.spec_reserved_until(today) is Ok
        &&& self.spec_status() is Ok
    }
}

/// A validated stock reservation form.
#[derive(Debug, Clone, PartialEq)]
pub struct InventoryReservationUserInput {
    pub id: ValueObjectOptional<UuidVO>,
    pub inventory_id: ValueObjectRequired<UuidVO>,
    pub quantity: ValueObjectRequired<Quantity>,
    pub reference_type: ValueObjectOptional<InventoryReferenceType>,
    pub reference_id: ValueObjectOptional<UuidVO>,
    pub reserved_until: InventoryReservationsReservedUntil,
    pub status: ValueObjectRequired<InventoryReservationsStatus>,
}

impl InventoryReservationUserInput {
    /// Each field holds what its form field gave on the given today.
    pub open spec fn holds(
        &self,
        value: InventoryReservationUserInputHelper,
        today: CalendarDate,
    ) -> bool {
        &&& value.spec_id() == Ok::<Option<Seq<char>>, ValueObjectError>(self.id@)
        &&& value.spec_inventory_id() == Ok::<Seq<char>, ValueObjectError>(self.inventory_id@)
        &&& value.spec_quantity() == Ok::<Seq<char>, ValueObjectError>(self.quantity@)
        &&& value.spec_reference_type() == Ok::<Option<Seq<char>>, ValueObjectError>(
            self.reference_type@,
        )
        &&& value.spec_reference_id() == Ok::<Option<Seq<char>>, ValueObjectError>(
            self.reference_id@,
        )
        &&& value.spec_reserved_until(today) == Ok::<Seq<char>, ValueObjectError>(
            self.reserved_until.0@,
        )
        &&& value.spec_status() == Ok::<Seq<char>, ValueObjectError>(self.status@)
    }

    /// Validates a stock reservation form against a given today. Every field
    /// is checked; the form is accepted when no field is refused, and
    /// otherwise the error names the message of each refused field.
    pub fn from_helper_on(value: InventoryReservationUserInputHelper, today: CalendarDate) -> (r:
        Result<Self, InventoryReservationUserInputError>)
        ensures
            r is Ok <==> value.spec_accepted(today),
            r matches Ok(v) ==> v.holds(value, today),
            r matches Err(e) ==> e.reports(value, today) && !e.spec_is_empty(),
    {
        let mut error = InventoryReservationUserInputError {
            id: None,
            inventory_id: None,
            quantity: None,
            reference_type: None,
            reference_id: None,
            reserved_until: None,
            status: None,
        };
        let id_text = string_or_empty(value.id);
        let id = ValueObjectOptional::<UuidVO>::parse(id_text.as_str());
        if let Err(e) = &id {
            error.id = Some(e.to_string());
        }
        let inventory_id = ValueObjectRequired::<UuidVO>::parse(value.inventory_id.as_str());
        if let Err(e) = &inventory_id {
            error.inventory_id = Some(e.to_string());
        }
        let quantity = ValueObjectRequired::<Quantity>::parse(value.quantity.as_str());
        if let Err(e) = &quantity {
            error.quantity = Some(e.to_string());
        }
        let reference_id = ValueObjectOptional::<UuidVO>::parse(value.reference_id.as_str());
        if let Err(e) = &reference_id {
            error.reference_id = Some(e.to_string());
        }
        let reference_type = ValueObjectOptional::<InventoryReferenceType>::parse(
            value.reference_type.as_str(),
        );
        if let Err(e) = &reference_type {
            error.reference_type = Some(e.to_string());
        }
        let reserved_until = InventoryReservationsReservedUntil::parse_required_on(
            value.reserved_until.as_str(),
            today,
        );
        if let Err(e) = &reserved_until {
            error.reserved_until = Some(e.to_string());
        }
        let status = ValueObjectRequired::<InventoryReservationsStatus>::parse(
            value.status.as_str(),
        );
        if let Err(e) = &status {
            error.status = Some(e.to_string());
        }
        if error.is_empty() {
            match (id, inventory_id, quantity, reference_type, reference_id, reserved_until, status) {
                (
                    Ok(id),
                    Ok(inventory_id),
                    Ok(quantity),
                    Ok(reference_type),
                    Ok(reference_id),
                    Ok(reserved_until),
                    Ok(status),
                ) => Ok(InventoryReservationUserInput {
                    id,
                    inventory_id,
                    quantity,
                    reference_type,
                    reference_id,
                    reserved_until,
                    status,
                }),
                _ => Err(error),
            }
        } else {
            Err(error)
        }
    }

    /// Validates a stock reservation form against today on the machine's
    /// clock: the outcome is that of `from_helper_on` for some today.
    pub fn from_helper(value: InventoryReservationUserInputHelper) -> (r: Result<
        Self,
        InventoryReservationUserInputError,
    >)
        ensures
            exists|today: CalendarDate|
                {
                    &&& (r is Ok <==> value.spec_accepted(today))
                    &&& (r matches Ok(v) ==> v.holds(value, today))
                    &&& (r matches Err(e) ==> e.reports(value, today) && !e.spec_is_empty())
                },
    {
        let today = today_local();
        Self::from_helper_on(value, today)
    }
}

impl vstd::std_specs::convert::TryFromSpecImpl<InventoryReservationUserInputHelper> for InventoryReservationUserInput {
    /// What the conversion gives is stated by `from_helper`, not here.
    open spec fn obeys_try_from_spec() -> bool {
        false
    }

    open spec fn try_from_spec(v: InventoryReservationUserInputHelper) -> Result<
        Self,
        InventoryReservationUserInputError,
    > {
        arbitrary()
    }
}

impl TryFrom<InventoryReservationUserInputHelper> for InventoryReservationUserInput {
    type Error = InventoryReservationUserInputError;

    fn try_from(value: InventoryReservationUserInputHelper) -> (r: Result<Self, Self::Error>)
        ensures
            exists|today: CalendarDate|
                {
                    &&& (r is Ok <==> value.spec_accepted(today))
                    &&& (r matches Ok(v) ==> v.holds(value, today))
                    &&& (r matches Err(e) ==> e.reports(value, today) && !e.spec_is_empty())
                },
    {
        Self::from_helper(value)
    }
}

/// The query of a list of stock reservations: the stock record they belong to and an
/// optional search text.
#[derive(Debug, Clone, PartialEq)]
pub struct InventoryReservationsRawQuery {
    inventory_id: u128,
    q: Option<String>,
}

impl InventoryReservationsRawQuery {
    /// A query for the given stock record and search text.
    pub fn new(inventory_id: u128, q: Option<String>) -> (r: Self)
        ensures
            r.spec_inventory_id() == inventory_id,
            r.spec_q() == text_or_empty(q),
    {
        InventoryReservationsRawQuery { inventory_id, q }
    }

    /// The stock record asked about.
    pub closed spec fn spec_inventory_id(&self) -> u128 {
        self.inventory_id
    }

    /// The search text, empty when none was given.
    pub closed spec fn spec_q(&self) -> Seq<char> {
        text_or_empty(self.q)
    }

    /// The stock record asked about.
    pub fn inventory_id(&self) -> (r: u128)
        ensures
            r == self.spec_inventory_id(),
    {
        self.inventory_id
    }

    /// The search text, empty when none was given.
    pub fn q(&self) -> (r: &str)
        ensures
            r@ == self.spec_q(),
    {
        match &self.q {
            Some(v) => v.as_str(),
            None => {
                proof {
                    reveal_strlit("");
                }
                ""
            },
        }
    }
}

} // verus!
