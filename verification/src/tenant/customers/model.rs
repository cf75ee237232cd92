//! Customer records as the database gives them, with identifiers as their
//! 128-bit values and times as `Timestamp`s.

use crate::common::time::Timestamp;
use vstd::prelude::*;

verus! {

/// A customer row.
#[derive(Debug, Clone, PartialEq)]
pub struct Customer {
    pub id: u128,
    pub name: String,
    pub contact_name: Option<String>,
    pub email: String,
    pub phone_number: Option<String>,
    pub status: String,
    pub customer_type: String,
    pub created_by_id: u128,
    pub created_at: Timestamp,
    pub updated_at: Timestamp,
    pub deleted_at: Option<Timestamp>,
    pub billing_address: Option<u128>,
    pub mailing_address: Option<u128>,
}

/// A customer row with the name of the user who created it.
#[derive(Debug, Clone, PartialEq)]
pub struct CustomerResolved {
    pub id: u128,
    pub name: String,
    pub contact_name: Option<String>,
    pub email: String,
    pub phone_number: Option<String>,
    pub status: String,
    pub customer_type: String,
    pub created_by_id: u128,
    pub created_by: String,
    pub created_at: Timestamp,
    pub updated_at: Timestamp,
    pub deleted_at: Option<Timestamp>,
    pub billing_address: Option<u128>,
    pub mailing_address: Option<u128>,
}

/// A customer with its addresses, each given as the text it is displayed
/// as.
#[derive(Debug, Clone, PartialEq)]
pub struct CustomerFull {
    pub id: u128,
    pub name: String,
    pub contact_name: Option<String>,
    pub email: String,
    pub phone_number: Option<String>,
    pub status: String,
    pub customer_type: String,
    pub created_by_id: u128,
    pub created_by: String,
    pub created_at: Timestamp,
    pub updated_at: Timestamp,
    pub deleted_at: Option<Timestamp>,
    pub billing_address: Option<String>,
    pub mailing_address: Option<String>,
}

impl CustomerResolved {
    /// The customer with the given addresses attached.
    pub open spec fn spec_into_full(
        self,
        billing_address: Option<String>,
        mailing_address: Option<String>,
    ) -> CustomerFull {
        CustomerFull {
            id: self.id,
            name: self.name,
            contact_name: self.contact_name,
            email: self.email,
            phone_number: self.phone_number,
            status: self.status,
            customer_type: self.customer_type,
            created_by_id: self.created_by_id,
            created_by: self.created_by,
            created_at: self.created_at,
            updated_at: self.updated_at,
            deleted_at: self.deleted_at,
            billing_address,
            mailing_address,
        }
    }

    /// Attaches the addresses to the customer.
    pub fn into_full(self, billing_address: Option<String>, mailing_address: Option<String>) -> (r:
        CustomerFull)
        ensures
            r == self.spec_into_full(billing_address, mailing_address),
            r.id == self.id,
            r.name == self.name,
            r.contact_name == self.contact_name,
            r.email == self.email,
            r.phone_number == self.phone_number,
            r.status == self.status,
            r.customer_type == self.customer_type,
            r.created_by_id == self.created_by_id,
            r.created_by == self.created_by,
            r.created_at == self.created_at,
            r.updated_at == self.updated_at,
            r.deleted_at == self.deleted_at,
            r.billing_address == billing_address,
            r.mailing_address == mailing_address,
    {
        CustomerFull {
            id: self.id,
            name: self.name,
            contact_name: self.contact_name,
            email: self.email,
            phone_number: self.phone_number,
            status: self.status,
            customer_type: self.customer_type,
            created_by_id: self.created_by_id,
            created_by: self.created_by,
            created_at: self.created_at,
            updated_at: self.updated_at,
            deleted_at: self.deleted_at,
            billing_address,
            mailing_address,
        }
    }
}

} // verus!
