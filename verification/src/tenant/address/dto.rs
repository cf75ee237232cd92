//! The address form: raw text in, a validated address or a report of every
//! refused field out.

use crate::common::types::UuidVO;
use crate::common::value_object::{
    error_message, opt_text, parse_optional_noted, parse_required_noted, spec_parse_optional,
    spec_parse_required, ValueObjectError, ValueObjectOptional, ValueObjectRequired,
};
use crate::tenant::address::types::{AddressPart, CountryCode};
use crate::tenant::customers::dto::{string_or_empty, text_or_empty};
use vstd::prelude::*;

verus! {

/// The address form as it arrives.
#[derive(Clone, Debug)]
pub struct AddressUserInputHelper {
    pub id: Option<String>,
    pub address_type: String,
    pub country_code: String,
    pub postal_code: String,
    pub settlement: String,
    pub mailbox: String,
    pub topographic_number: String,
    pub name_of_public_space: String,
    pub type_of_public_space: String,
    pub house_number: String,
    pub building: String,
    pub stairway: String,
    pub floor: String,
    pub door: String,
}

/// The message of each refused field of an address form.
#[derive(Debug, PartialEq, Clone)]
pub struct AddressUserInputError {
    pub id: Option<String>,
    pub address_type: Option<String>,
    pub country_code: Option<String>,
    pub postal_code: Option<String>,
    pub settlement: Option<String>,
    pub mailbox: Option<String>,
    pub topographic_number: Option<String>,
    pub name_of_public_space: Option<String>,
    pub type_of_public_space: Option<String>,
    pub house_number: Option<String>,
    pub building: Option<String>,
    pub stairway: Option<String>,
    pub floor: Option<String>,
    pub door: Option<String>,
}

impl AddressUserInputError {
    /// No field is refused.
    pub open spec fn spec_is_empty(&self) -> bool {
        &&& self.id is None
        &&& self.address_type is None
        &&& self.country_code is None
        &&& self.postal_code is None
        &&& self.settlement is None
        &&& self.mailbox is None
        &&& self.topographic_number is None
        &&& self.name_of_public_space is None
        &&& self.type_of_public_space is None
        &&& self.house_number is None
        &&& self.building is None
        &&& self.stairway is None
        &&& self.floor is None
        &&& self.door is None
    }

    /// Whether no field is refused.
    pub fn is_empty(&self) -> (r: bool)
        ensures
            r == self.spec_is_empty(),
    {
        self.id.is_none()
            && self.address_type.is_none()
            && self.country_code.is_none()
            && self.postal_code.is_none()
            && self.settlement.is_none()
            && self.mailbox.is_none()
            && self.topographic_number.is_none()
            && self.name_of_public_space.is_none()
            && self.type_of_public_space.is_none()
            && self.house_number.is_none()
            && self.building.is_none()
            && self.stairway.is_none()
            && self.floor.is_none()
            && self.door.is_none()
    }

    /// Each field holds the message of what its form field gave.
    pub open spec fn reports(&self, value: AddressUserInputHelper) -> bool {
        &&& opt_text(self.id) == error_message(value.spec_id())
        &&& opt_text(self.address_type) == error_message(value.spec_address_type())
        &&& opt_text(self.country_code) == error_message(value.spec_country_code())
        &&& opt_text(self.postal_code) == error_message(value.spec_postal_code())
        &&& opt_text(self.settlement) == error_message(value.spec_settlement())
        &&& opt_text(self.mailbox) == error_message(value.spec_mailbox())
        &&& opt_text(self.topographic_number) == error_message(value.spec_topographic_number())
        &&& opt_text(self.name_of_public_space) == error_message(value.spec_name_of_public_space())
        &&& opt_text(self.type_of_public_space) == error_message(value.spec_type_of_public_space())
        &&& opt_text(self.house_number) == error_message(value.spec_house_number())
        &&& opt_text(self.building) == error_message(value.spec_building())
        &&& opt_text(self.stairway) == error_message(value.spec_stairway())
        &&& opt_text(self.floor) == error_message(value.spec_floor())
        &&& opt_text(self.door) == error_message(value.spec_door())
    }
}

impl AddressUserInputError {
    /// The report that names no field.
    pub open spec fn spec_empty() -> Self {
        AddressUserInputError {
            id: None,
            address_type: None,
            country_code: None,
            postal_code: None,
            settlement: None,
            mailbox: None,
            topographic_number: None,
            name_of_public_space: None,
            type_of_public_space: None,
            house_number: None,
            building: None,
            stairway: None,
            floor: None,
            door: None,
        }
    }
}

impl Default for AddressUserInputError {
    /// The report that names no field.
    fn default() -> (r: Self)
        ensures
            r == Self::spec_empty(),
    {
        AddressUserInputError {
            id: None,
            address_type: None,
            country_code: None,
            postal_code: None,
            settlement: None,
            mailbox: None,
            topographic_number: None,
            name_of_public_space: None,
            type_of_public_space: None,
            house_number: None,
            building: None,
            stairway: None,
            floor: None,
            door: None,
        }
    }
}

impl vstd::std_specs::convert::FromSpecImpl<ValueObjectError> for AddressUserInputError {
    open spec fn obeys_from_spec() -> bool {
        true
    }

    /// A value error turns into a report that names no field.
    open spec fn from_spec(v: ValueObjectError) -> Self {
        AddressUserInputError::spec_empty()
    }
}

impl From<ValueObjectError> for AddressUserInputError {
    fn from(_value: ValueObjectError) -> Self {
        AddressUserInputError {
            id: None,
            address_type: None,
            country_code: None,
            postal_code: None,
            settlement: None,
            mailbox: None,
            topographic_number: None,
            name_of_public_space: None,
            type_of_public_space: None,
            house_number: None,
            building: None,
            stairway: None,
            floor: None,
            door: None,
        }
    }
}

impl AddressUserInputHelper {
    /// The identifier: optional, a UUID when given.
    pub open spec fn spec_id(self) -> Result<Option<Seq<char>>, ValueObjectError> {
        spec_parse_optional::<UuidVO>(text_or_empty(self.id))
    }

    /// The kind of address: optional free text.
    pub open spec fn spec_address_type(self) -> Result<Option<Seq<char>>, ValueObjectError> {
        spec_parse_optional::<AddressPart>(self.address_type@)
    }

    /// The country code: required, two capital letters.
    pub open spec fn spec_country_code(self) -> Result<Seq<char>, ValueObjectError> {
        spec_parse_required::<CountryCode>(self.country_code@)
    }

    /// The postal code: required.
    pub open spec fn spec_postal_code(self) -> Result<Seq<char>, ValueObjectError> {
        spec_parse_required::<AddressPart>(self.postal_code@)
    }

    /// The settlement: required.
    pub open spec fn spec_settlement(self) -> Result<Seq<char>, ValueObjectError> {
        spec_parse_required::<AddressPart>(self.settlement@)
    }

    /// The post-office box: optional.
    pub open spec fn spec_mailbox(self) -> Result<Option<Seq<char>>, ValueObjectError> {
        spec_parse_optional::<AddressPart>(self.mailbox@)
    }

    /// The land-registry (topographic) number: optional.
    pub open spec fn spec_topographic_number(self) -> Result<Option<Seq<char>>, ValueObjectError> {
        spec_parse_optional::<AddressPart>(self.topographic_number@)
    }

    /// The name of the street or other public space: optional.
    pub open spec fn spec_name_of_public_space(self) -> Result<
        Option<Seq<char>>,
        ValueObjectError,
    > {
        spec_parse_optional::<AddressPart>(self.name_of_public_space@)
    }

    /// The kind of public space (street, square, ...): optional.
    pub open spec fn spec_type_of_public_space(self) -> Result<
        Option<Seq<char>>,
        ValueObjectError,
    > {
        spec_parse_optional::<AddressPart>(self.type_of_public_space@)
    }

    /// The house number: optional.
    pub open spec fn spec_house_number(self) -> Result<Option<Seq<char>>, ValueObjectError> {
        spec_parse_optional::<AddressPart>(self.house_number@)
    }

    /// The building: optional.
    pub open spec fn spec_building(self) -> Result<Option<Seq<char>>, ValueObjectError> {
        spec_parse_optional::<AddressPart>(self.building@)
    }

    /// The stairway: optional.
    pub open spec fn spec_stairway(self) -> Result<Option<Seq<char>>, ValueObjectError> {
        spec_parse_optional::<AddressPart>(self.stairway@)
    }

    /// The floor: optional.
    pub open spec fn spec_floor(self) -> Result<Option<Seq<char>>, ValueObjectError> {
        spec_parse_optional::<AddressPart>(self.floor@)
    }

    /// The door: optional.
    pub open spec fn spec_door(self) -> Result<Option<Seq<char>>, ValueObjectError> {
        spec_parse_optional::<AddressPart>(self.door@)
    }

    /// Every field of the form is accepted.
    pub open spec fn spec_accepted(self) -> bool {
        &&& self.spec_id() is Ok
        &&& self.spec_address_type() is Ok
        &&& self.spec_country_code() is Ok
        &&& self.spec_postal_code() is Ok
        &&& self.spec_settlement() is Ok
        &&& self.spec_mailbox() is Ok
        &&& self.spec_topographic_number() is Ok
        &&& self.spec_name_of_public_space() is Ok
        &&& self.spec_type_of_public_space() is Ok
        &&& self.spec_house_number() is Ok
        &&& self.spec_building() is Ok
        &&& self.spec_stairway() is Ok
        &&& self.spec_floor() is Ok
        &&& self.spec_door() is Ok
    }
}

/// A validated address form.
#[derive(Debug, Clone, PartialEq)]
pub struct AddressUserInput {
    pub id: ValueObjectOptional<UuidVO>,
    pub address_type: ValueObjectOptional<AddressPart>,
    pub country_code: ValueObjectRequired<CountryCode>,
    pub postal_code: ValueObjectRequired<AddressPart>,
    pub settlement: ValueObjectRequired<AddressPart>,
    pub mailbox: ValueObjectOptional<AddressPart>,
    pub topographic_number: ValueObjectOptional<AddressPart>,
    pub name_of_public_space: ValueObjectOptional<AddressPart>,
    pub type_of_public_space: ValueObjectOptional<AddressPart>,
    pub house_number: ValueObjectOptional<AddressPart>,
    pub building: ValueObjectOptional<AddressPart>,
    pub stairway: ValueObjectOptional<AddressPart>,
    pub floor: ValueObjectOptional<AddressPart>,
    pub door: ValueObjectOptional<AddressPart>,
}

impl AddressUserInput {
    /// Each field holds what its form field gave.
    pub open spec fn holds(&self, value: AddressUserInputHelper) -> bool {
        &&& value.spec_id() == Ok::<Option<Seq<char>>, ValueObjectError>(self.id@)
        &&& value.spec_address_type() == Ok::<Option<Seq<char>>, ValueObjectError>(
            self.address_type@,
        )
        &&& value.spec_country_code() == Ok::<Seq<char>, ValueObjectError>(self.country_code@)
        &&& value.spec_postal_code() == Ok::<Seq<char>, ValueObjectError>(self.postal_code@)
        &&& value.spec_settlement() == Ok::<Seq<char>, ValueObjectError>(self.settlement@)
        &&& value.spec_mailbox() == Ok::<Option<Seq<char>>, ValueObjectError>(self.mailbox@)
        &&& value.spec_topographic_number() == Ok::<Option<Seq<char>>, ValueObjectError>(
            self.topographic_number@,
        )
        &&& value.spec_name_of_public_space() == Ok::<Option<Seq<char>>, ValueObjectError>(
            self.name_of_public_space@,
        )
        &&& value.spec_type_of_public_space() == Ok::<Option<Seq<char>>, ValueObjectError>(
            self.type_of_public_space@,
        )
        &&& value.spec_house_number() == Ok::<Option<Seq<char>>, ValueObjectError>(
            self.house_number@,
        )
        &&& value.spec_building() == Ok::<Option<Seq<char>>, ValueObjectError>(self.building@)
        &&& value.spec_stairway() == Ok::<Option<Seq<char>>, ValueObjectError>(self.stairway@)
        &&& value.spec_floor() == Ok::<Option<Seq<char>>, ValueObjectError>(self.floor@)
        &&& value.spec_door() == Ok::<Option<Seq<char>>, ValueObjectError>(self.door@)
    }

    /// Validates an address form. Every field is checked; the form is
    /// accepted when no field is refused, and otherwise the error names the
    /// message of each refused field.
    pub fn from_helper(value: AddressUserInputHelper) -> (r: Result<Self, AddressUserInputError>)
        ensures
            r is Ok <==> value.spec_accepted(),
            r matches Ok(v) ==> v.holds(value),
            r matches Err(e) ==> e.reports(value) && !e.spec_is_empty(),
    {
        let id_text = string_or_empty(value.id);
        let (id, id_note) = parse_optional_noted::<UuidVO>(id_text.as_str());
        let (address_type, address_type_note) = parse_optional_noted::<AddressPart>(
            value.address_type.as_str(),
        );
        let (country_code, country_code_note) = parse_required_noted::<CountryCode>(
            value.country_code.as_str(),
        );
        let (postal_code, postal_code_note) = parse_required_noted::<AddressPart>(
            value.postal_code.as_str(),
        );
        let (settlement, settlement_note) = parse_required_noted::<AddressPart>(
            value.settlement.as_str(),
        );
        let (mailbox, mailbox_note) = parse_optional_noted::<AddressPart>(value.mailbox.as_str());
        let (topographic_number, topographic_number_note) = parse_optional_noted::<AddressPart>(
            value.topographic_number.as_str(),
        );
        let (name_of_public_space, name_of_public_space_note) = parse_optional_noted::<AddressPart>(
            value.name_of_public_space.as_str(),
        );
        let (type_of_public_space, type_of_public_space_note) = parse_optional_noted::<AddressPart>(
            value.type_of_public_space.as_str(),
        );
        let (house_number, house_number_note) = parse_optional_noted::<AddressPart>(
            value.house_number.as_str(),
        );
        let (building, building_note) = parse_optional_noted::<AddressPart>(
            value.building.as_str(),
        );
        let (stairway, stairway_note) = parse_optional_noted::<AddressPart>(
            value.stairway.as_str(),
        );
        let (floor, floor_note) = parse_optional_noted::<AddressPart>(value.floor.as_str());
        let (door, door_note) = parse_optional_noted::<AddressPart>(value.door.as_str());
        let error = AddressUserInputError {
            id: id_note,
            address_type: address_type_note,
            country_code: country_code_note,
            postal_code: postal_code_note,
            settlement: settlement_note,
            mailbox: mailbox_note,
            topographic_number: topographic_number_note,
            name_of_public_space: name_of_public_space_note,
            type_of_public_space: type_of_public_space_note,
            house_number: house_number_note,
            building: building_note,
            stairway: stairway_note,
            floor: floor_note,
            door: door_note,
        };
        if error.is_empty() {
            Ok(AddressUserInput {
                id: id.unwrap(),
                address_type: address_type.unwrap(),
                country_code: country_code.unwrap(),
                postal_code: postal_code.unwrap(),
                settlement: settlement.unwrap(),
                mailbox: mailbox.unwrap(),
                topographic_number: topographic_number.unwrap(),
                name_of_public_space: name_of_public_space.unwrap(),
                type_of_public_space: type_of_public_space.unwrap(),
                house_number: house_number.unwrap(),
                building: building.unwrap(),
                stairway: stairway.unwrap(),
                floor: floor.unwrap(),
                door: door.unwrap(),
            })
        } else {
            Err(error)
        }
    }
}

impl vstd::std_specs::convert::TryFromSpecImpl<AddressUserInputHelper> for AddressUserInput {
    /// What the conversion gives is stated by `from_helper`, not here.
    open spec fn obeys_try_from_spec() -> bool {
        false
    }

    open spec fn try_from_spec(v: AddressUserInputHelper) -> Result<Self, AddressUserInputError> {
        arbitrary()
    }
}

impl TryFrom<AddressUserInputHelper> for AddressUserInput {
    type Error = AddressUserInputError;

    fn try_from(value: AddressUserInputHelper) -> (r: Result<Self, Self::Error>)
        ensures
            r is Ok <==> value.spec_accepted(),
            r matches Ok(v) ==> v.holds(value),
            r matches Err(e) ==> e.reports(value) && !e.spec_is_empty(),
    {
        Self::from_helper(value)
    }
}

} // verus!
