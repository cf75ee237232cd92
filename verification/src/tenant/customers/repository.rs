//! The decisions the customer repository takes between its database calls.

use crate::common::bindings::uuid_of_text;
use crate::tenant::address::dto::AddressUserInput;
use vstd::prelude::*;

verus! {

/// What an update does to one of a customer's addresses.
#[derive(Debug, Clone, Copy, PartialEq, Eq)]
pub enum AddressChange {
    /// The customer has no such address and none is submitted.
    Nothing,
    /// A new address is submitted: insert it.
    Insert,
    /// The stored address (by its identifier) is no longer submitted:
    /// delete it.
    Delete(u128),
    /// The submitted address is the stored one: update it in place.
    Update,
    /// The submitted address names another record than the stored one: the
    /// update is refused as an inconsistent state.
    Mismatch,
}

/// The change an update makes to an address, given the identifier stored
/// with the customer and what the form submits (`None` for no address,
/// otherwise the submitted address's own identifier, if it has one).
pub open spec fn spec_plan_address_change(
    stored: Option<u128>,
    submitted: Option<Option<u128>>,
) -> AddressChange {
    match (stored, submitted) {
        (None, None) => AddressChange::Nothing,
        (None, Some(_)) => AddressChange::Insert,
        (Some(current), None) => AddressChange::Delete(current),
        (Some(current), Some(id)) => if id == Some(current) {
            AddressChange::Update
        } else {
            AddressChange::Mismatch
        },
    }
}

/// Decides what an update does to an address (see
/// `spec_plan_address_change`).
pub fn plan_address_change(stored: Option<u128>, submitted: Option<Option<u128>>) -> (r:
    AddressChange)
    ensures
        r == spec_plan_address_change(stored, submitted),
{
    match (stored, submitted) {
        (None, None) => AddressChange::Nothing,
        (None, Some(_)) => AddressChange::Insert,
        (Some(current), None) => AddressChange::Delete(current),
        (Some(current), Some(id)) => match id {
            Some(given) => if given == current {
                AddressChange::Update
            } else {
                AddressChange::Mismatch
            },
            None => AddressChange::Mismatch,
        },
    }
}

/// The locking clause of a customer read: a read inside an update locks
/// the customer's row.
pub open spec fn spec_lock_clause(for_update: bool) -> Seq<char> {
    if for_update {
        "FOR UPDATE OF customers"@
    } else {
        Seq::empty()
    }
}

/// Chooses the locking clause of a customer read.
pub fn lock_clause(for_update: bool) -> (r: &'static str)
    ensures
        r@ == spec_lock_clause(for_update),
{
    if for_update {
        "FOR UPDATE OF customers"
    } else {
        proof {
            reveal_strlit("");
        }
        ""
    }
}

/// What a validated form's address slot submits to the plan: nothing for
/// no address, otherwise the address's own identifier as a UUID, if it
/// has one.
pub open spec fn spec_submitted_address(a: Option<AddressUserInput>) -> Option<Option<u128>> {
    match a {
        None => None,
        Some(x) => Some(
            match x.id@ {
                None => None,
                Some(t) => uuid_of_text(t),
            },
        ),
    }
}

/// Decides what an update does to an address, from the identifier stored
/// with the customer and the address slot of the validated form.
pub fn plan_form_address_change(stored: Option<u128>, submitted: &Option<AddressUserInput>) -> (r:
    AddressChange)
    ensures
        r == spec_plan_address_change(stored, spec_submitted_address(*submitted)),
{
    let id = match submitted {
        None => None,
        Some(x) => Some(x.id.as_uuid()),
    };
    plan_address_change(stored, id)
}

/// The message of an update whose billing address names another record.
pub const BILLING_ADDRESS_MISMATCH: &'static str = "unexpected billing_address id missmatch";

/// The message of an update whose mailing address names another record.
pub const MAILING_ADDRESS_MISMATCH: &'static str = "unexpected mailing_address id missmatch";

/// An update never deletes an address that is submitted, and never writes
/// over a stored address with a record of another identity: a stored
/// address is either deleted (nothing submitted), updated (the same record
/// submitted) or the update is refused.
pub proof fn lemma_address_change_keeps_identity(stored: Option<u128>, submitted: Option<Option<u128>>)
    ensures
        spec_plan_address_change(stored, submitted) is Delete ==> submitted is None && stored
            is Some && spec_plan_address_change(stored, submitted)->0 == stored->0,
        spec_plan_address_change(stored, submitted) is Update ==> stored is Some && submitted
            == Some(stored),
        spec_plan_address_change(stored, submitted) is Insert ==> stored is None,
        stored is Some && submitted is Some && submitted != Some(stored) ==> spec_plan_address_change(
            stored,
            submitted,
        ) is Mismatch,
{
}

} // verus!
