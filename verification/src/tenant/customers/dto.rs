//! The customer form: raw text in, validated customer input or a report of
//! every refused field out.

use crate::common::types::{Email, UuidVO};
use crate::common::value_object::{
    error_message, opt_text, parse_optional_noted, parse_required_noted, spec_parse_optional,
    spec_parse_required, ValueObjectError, ValueObjectOptional, ValueObjectRequired,
};
use crate::tenant::address::dto::{
    AddressUserInput, AddressUserInputError, AddressUserInputHelper,
};
use crate::tenant::customers::types::{
    ContactName, CustomerPhoneNumber, CustomerStatus, CustomerType, Name,
};
use crate::common::text::text_eq;
use vstd::prelude::*;

verus! {

/// The text of an optional form field, the empty text when it is missing.
pub open spec fn text_or_empty(o: Option<String>) -> Seq<char> {
    match o {
        Some(s) => s@,
        None => Seq::empty(),
    }
}

/// Gives the text of an optional form field, the empty text when it is
/// missing.
pub fn string_or_empty(o: Option<String>) -> (r: String)
    ensures
        r@ == text_or_empty(o),
{
    match o {
        Some(s) => s,
        None => String::new(),
    }
}

/// The customer form as it arrives.
#[derive(Clone, Debug)]
pub struct CustomerUserInputHelper {
    pub id: Option<String>,
    pub name: String,
    pub contact_name: String,
    pub email: String,
    pub phone_number: String,
    pub status: String,
    pub customer_type: String,
    pub billing_address: Option<AddressUserInputHelper>,
    pub mailing_address: Option<AddressUserInputHelper>,
}

/// The message of each refused field of a customer form.
#[derive(Debug, Default, PartialEq)]
pub struct CustomerUserInputError {
    pub id: Option<String>,
    pub name: Option<String>,
    pub contact_name: Option<String>,
    pub email: Option<String>,
    pub phone_number: Option<String>,
    pub status: Option<String>,
    pub customer_type: Option<String>,
    pub billing_address: AddressUserInputError,
    pub mailing_address: AddressUserInputError,
}

/// What a customer form's address slot reports: the address's own report
/// when an address is given, a report that names no field otherwise.
pub open spec fn address_reported(
    e: AddressUserInputError,
    h: Option<AddressUserInputHelper>,
) -> bool {
    match h {
        Some(h) => e.reports(h),
        None => e.spec_is_empty(),
    }
}

/// An address slot of a form is accepted: no address, or an accepted one.
pub open spec fn address_accepted(h: Option<AddressUserInputHelper>) -> bool {
    match h {
        Some(h) => h.spec_accepted(),
        None => true,
    }
}

/// A validated address slot holds what the form's slot gave: no address
/// for none, the validated address for a given one.
pub open spec fn address_holds(
    a: Option<AddressUserInput>,
    h: Option<AddressUserInputHelper>,
) -> bool {
    match (a, h) {
        (Some(a), Some(h)) => a.holds(h),
        (None, None) => true,
        _ => false,
    }
}

/// Validates one address slot of a customer form: the validated address
/// and a report that names no field, or no address and the address's report.
fn check_address(h: Option<AddressUserInputHelper>) -> (r: (
    Option<AddressUserInput>,
    AddressUserInputError,
))
    ensures
        r.1.spec_is_empty() <==> address_accepted(h),
        address_reported(r.1, h),
        address_accepted(h) ==> address_holds(r.0, h),
{
    match h {
        None => (None, AddressUserInputError::default()),
        Some(x) => match AddressUserInput::from_helper(x) {
            Ok(a) => (Some(a), AddressUserInputError::default()),
            Err(e) => (None, e),
        },
    }
}

impl vstd::std_specs::convert::FromSpecImpl<ValueObjectError> for CustomerUserInputError {
    open spec fn obeys_from_spec() -> bool {
        true
    }

    /// A value error turns into a report that names no field.
    open spec fn from_spec(v: ValueObjectError) -> Self {
        CustomerUserInputError::spec_empty()
    }
}

impl From<ValueObjectError> for CustomerUserInputError {
    fn from(_value: ValueObjectError) -> Self {
        CustomerUserInputError::empty()
    }
}

impl vstd::std_specs::convert::FromSpecImpl<AddressUserInputError> for CustomerUserInputError {
    open spec fn obeys_from_spec() -> bool {
        true
    }

    /// An address report turns into a report that names no field.
    open spec fn from_spec(v: AddressUserInputError) -> Self {
        CustomerUserInputError::spec_empty()
    }
}

impl From<AddressUserInputError> for CustomerUserInputError {
    fn from(_value: AddressUserInputError) -> Self {
        CustomerUserInputError::empty()
    }
}

impl CustomerUserInputError {
    /// No field is refused.
    pub open spec fn spec_is_empty(&self) -> bool {
        &&& self.id is None
        &&& self.name is None
        &&& self.contact_name is None
        &&& self.email is None
        &&& self.phone_number is None
        &&& self.status is None
        &&& self.customer_type is None
        &&& self.billing_address.spec_is_empty()
        &&& self.mailing_address.spec_is_empty()
    }

    /// The report that names no field.
    pub open spec fn spec_empty() -> Self {
        CustomerUserInputError {
            id: None,
            name: None,
            contact_name: None,
            email: None,
            phone_number: None,
            status: None,
            customer_type: None,
            billing_address: AddressUserInputError::spec_empty(),
            mailing_address: AddressUserInputError::spec_empty(),
        }
    }

    /// The report that names no field.
    pub fn empty() -> (r: Self)
        ensures
            r == Self::spec_empty(),
    {
        CustomerUserInputError {
            id: None,
            name: None,
            contact_name: None,
            email: None,
            phone_number: None,
            status: None,
            customer_type: None,
            billing_address: AddressUserInputError::default(),
            mailing_address: AddressUserInputError::default(),
        }
    }

    /// Whether no field is refused.
    pub fn is_empty(&self) -> (r: bool)
        ensures
            r == self.spec_is_empty(),
    {
        self.id.is_none() && self.name.is_none() && self.contact_name.is_none()
            && self.email.is_none() && self.phone_number.is_none() && self.status.is_none()
            && self.customer_type.is_none() && self.billing_address.is_empty()
            && self.mailing_address.is_empty()
    }

    /// Each field holds the message of what its form field gave.
    pub open spec fn reports(&self, value: CustomerUserInputHelper) -> bool {
        &&& opt_text(self.id) == error_message(value.spec_id())
        &&& opt_text(self.name) == error_message(value.spec_name())
        &&& opt_text(self.contact_name) == error_message(value.spec_contact_name())
        &&& opt_text(self.email) == error_message(value.spec_email())
        &&& opt_text(self.phone_number) == error_message(value.spec_phone_number())
        &&& opt_text(self.status) == error_message(value.spec_status())
        &&& opt_text(self.customer_type) == error_message(value.spec_customer_type())
        &&& address_reported(self.billing_address, value.billing_address)
        &&& address_reported(self.mailing_address, value.mailing_address)
    }
}

impl CustomerUserInputHelper {
    /// The identifier: optional, a UUID when given.
    pub open spec fn spec_id(self) -> Result<Option<Seq<char>>, ValueObjectError> {
        spec_parse_optional::<UuidVO>(text_or_empty(self.id))
    }

    /// The name: required.
    pub open spec fn spec_name(self) -> Result<Seq<char>, ValueObjectError> {
        spec_parse_required::<Name>(self.name@)
    }

    /// The e-mail address: required.
    pub open spec fn spec_email(self) -> Result<Seq<char>, ValueObjectError> {
        spec_parse_required::<Email>(self.email@)
    }

    /// The phone number: optional.
    pub open spec fn spec_phone_number(self) -> Result<Option<Seq<char>>, ValueObjectError> {
        spec_parse_optional::<CustomerPhoneNumber>(self.phone_number@)
    }

    /// The status: required.
    pub open spec fn spec_status(self) -> Result<Seq<char>, ValueObjectError> {
        spec_parse_required::<CustomerStatus>(self.status@)
    }

    /// The customer type: required.
    pub open spec fn spec_customer_type(self) -> Result<Seq<char>, ValueObjectError> {
        spec_parse_required::<CustomerType>(self.customer_type@)
    }

    /// The contact name: required of a legal person, not read otherwise.
    pub open spec fn spec_contact_name(self) -> Result<Option<Seq<char>>, ValueObjectError> {
        match self.spec_customer_type() {
            Ok(t) => if t == "legal"@ {
                match spec_parse_required::<ContactName>(self.contact_name@) {
                    Ok(c) => Ok(Some(c)),
                    Err(e) => Err(e),
                }
            } else {
                Ok(None)
            },
            Err(_) => Ok(None),
        }
    }

    /// Every field of the form is accepted.
    pub open spec fn spec_accepted(self) -> bool {
        &&& self.spec_id() is Ok
        &&& self.spec_name() is Ok
        &&& self.spec_contact_name() is Ok
        &&& self.spec_email() is Ok
        &&& self.spec_phone_number() is Ok
        &&& self.spec_status() is Ok
        &&& self.spec_customer_type() is Ok
        &&& address_accepted(self.billing_address)
        &&& address_accepted(self.mailing_address)
    }
}

/// A validated customer form.
#[derive(Debug, Clone, PartialEq)]
pub struct CustomerUserInput {
    pub id: ValueObjectOptional<UuidVO>,
    pub name: ValueObjectRequired<Name>,
    pub contact_name: Option<ValueObjectRequired<ContactName>>,
    pub email: ValueObjectRequired<Email>,
    pub phone_number: ValueObjectOptional<CustomerPhoneNumber>,
    pub status: ValueObjectRequired<CustomerStatus>,
    pub customer_type: ValueObjectRequired<CustomerType>,
    pub billing_address: Option<AddressUserInput>,
    pub mailing_address: Option<AddressUserInput>,
}

impl CustomerUserInput {
    /// Each field holds what its form field gave.
    pub open spec fn holds(&self, value: CustomerUserInputHelper) -> bool {
        &&& value.spec_id() == Ok::<Option<Seq<char>>, ValueObjectError>(self.id@)
        &&& value.spec_name() == Ok::<Seq<char>, ValueObjectError>(self.name@)
        &&& value.spec_contact_name() == Ok::<Option<Seq<char>>, ValueObjectError>(
            match self.contact_name {
                Some(c) => Some(c@),
                None => None,
            },
        )
        &&& value.spec_email() == Ok::<Seq<char>, ValueObjectError>(self.email@)
        &&& value.spec_phone_number() == Ok::<Option<Seq<char>>, ValueObjectError>(
            self.phone_number@,
        )
        &&& value.spec_status() == Ok::<Seq<char>, ValueObjectError>(self.status@)
        &&& value.spec_customer_type() == Ok::<Seq<char>, ValueObjectError>(self.customer_type@)
        &&& address_holds(self.billing_address, value.billing_address)
        &&& address_holds(self.mailing_address, value.mailing_address)
    }

    /// Validates a customer form. Every field is checked; the form is
    /// accepted when no field is refused, and otherwise the error names the
    /// message of each refused field.
    pub fn from_helper(value: CustomerUserInputHelper) -> (r: Result<Self, CustomerUserInputError>)
        ensures
            r is Ok <==> value.spec_accepted(),
            r matches Ok(v) ==> v.holds(value),
            r matches Err(e) ==> e.reports(value) && !e.spec_is_empty(),
    {
        let id_text = string_or_empty(value.id);
        let (id, id_note) = parse_optional_noted::<UuidVO>(id_text.as_str());
        let (name, name_note) = parse_required_noted::<Name>(value.name.as_str());
        let (email, email_note) = parse_required_noted::<Email>(value.email.as_str());
        let (phone_number, phone_number_note) = parse_optional_noted::<CustomerPhoneNumber>(
            value.phone_number.as_str(),
        );
        let (status, status_note) = parse_required_noted::<CustomerStatus>(value.status.as_str());
        let (customer_type, customer_type_note) = parse_required_noted::<CustomerType>(
            value.customer_type.as_str(),
        );
        let is_legal = match &customer_type {
            Ok(t) => match t.as_str() {
                Ok(s) => text_eq(s, "legal"),
                Err(_) => false,
            },
            Err(_) => false,
        };
        let (contact_name, contact_name_note) = if is_legal {
            let (c, note) = parse_required_noted::<ContactName>(value.contact_name.as_str());
            let c = match c {
                Ok(c) => Ok(Some(c)),
                Err(e) => Err(e),
            };
            (c, note)
        } else {
            (Ok(None), None)
        };
        let (billing_address, billing_note) = check_address(value.billing_address);
        let (mailing_address, mailing_note) = check_address(value.mailing_address);
        let error = CustomerUserInputError {
            id: id_note,
            name: name_note,
            contact_name: contact_name_note,
            email: email_note,
            phone_number: phone_number_note,
            status: status_note,
            customer_type: customer_type_note,
            billing_address: billing_note,
            mailing_address: mailing_note,
        };
        if error.is_empty() {
            Ok(CustomerUserInput {
                id: id.unwrap(),
                name: name.unwrap(),
                contact_name: contact_name.unwrap(),
                email: email.unwrap(),
                phone_number: phone_number.unwrap(),
                status: status.unwrap(),
                customer_type: customer_type.unwrap(),
                billing_address,
                mailing_address,
            })
        } else {
            Err(error)
        }
    }
}

impl vstd::std_specs::convert::TryFromSpecImpl<CustomerUserInputHelper> for CustomerUserInput {
    /// What the conversion gives is stated by `from_helper`, not here.
    open spec fn obeys_try_from_spec() -> bool {
        false
    }

    open spec fn try_from_spec(v: CustomerUserInputHelper) -> Result<Self, CustomerUserInputError> {
        arbitrary()
    }
}

impl TryFrom<CustomerUserInputHelper> for CustomerUserInput {
    type Error = CustomerUserInputError;

    fn try_from(value: CustomerUserInputHelper) -> (r: Result<Self, Self::Error>)
        ensures
            r is Ok <==> value.spec_accepted(),
            r matches Ok(v) ==> v.holds(value),
            r matches Err(e) ==> e.reports(value) && !e.spec_is_empty(),
    {
        Self::from_helper(value)
    }
}

} // verus!
