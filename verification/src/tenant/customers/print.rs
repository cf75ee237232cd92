//! The printable view of a customer: statuses and types in words, times in
//! the reader's time zone.

use crate::common::text::text_eq;
use crate::common::value_object::opt_text;
use crate::common::time::{print_time, print_time_opt, spec_print_time, spec_print_time_opt};
use crate::tenant::customers::model::CustomerFull;
use vstd::prelude::*;

verus! {

/// A customer as it is printed.
#[derive(Debug, Clone, PartialEq)]
pub struct CustomerFullPrint {
    pub id: u128,
    pub name: String,
    pub contact_name: Option<String>,
    pub email: String,
    pub phone_number: Option<String>,
    pub status: String,
    pub customer_type: String,
    pub created_by_id: u128,
    pub created_by: String,
    pub billing_address: Option<String>,
    pub mailing_address: Option<String>,
    pub created_at: String,
    pub updated_at: String,
    pub deleted_at: Option<String>,
}

/// The word a customer status is printed as.
pub open spec fn customer_status_label(status: Seq<char>) -> Seq<char> {
    if status == "active"@ {
        "Aktív"@
    } else if status == "lead"@ {
        "Érdeklődő"@
    } else if status == "prospect"@ {
        "Lehetséges vevő"@
    } else if status == "inactive"@ {
        "Inaktív"@
    } else {
        "Ismeretlen státusz"@
    }
}

/// The words a customer type is printed as.
pub open spec fn customer_type_label(customer_type: Seq<char>) -> Seq<char> {
    if customer_type == "natural"@ {
        "Természetes személy"@
    } else if customer_type == "legal"@ {
        "Jogi személy"@
    } else {
        "Ismeretlen típus"@
    }
}

impl CustomerFullPrint {
    /// The times of the customer can be shown in the zone.
    pub open spec fn times_show(c: CustomerFull, tz: Seq<char>) -> bool {
        &&& spec_print_time(c.created_at, tz) is Some
        &&& spec_print_time(c.updated_at, tz) is Some
        &&& spec_print_time_opt(c.deleted_at, tz) is Some
    }

    /// This view prints the customer in the zone: the data as it is, the
    /// status and type in words, the times as the zone shows them.
    pub open spec fn prints(self, c: CustomerFull, tz: Seq<char>) -> bool {
        &&& self.id == c.id
        &&& self.name == c.name
        &&& self.contact_name == c.contact_name
        &&& self.email == c.email
        &&& self.phone_number == c.phone_number
        &&& self.status@ == customer_status_label(c.status@)
        &&& self.customer_type@ == customer_type_label(c.customer_type@)
        &&& self.created_by_id == c.created_by_id
        &&& self.created_by == c.created_by
        &&& self.billing_address == c.billing_address
        &&& self.mailing_address == c.mailing_address
        &&& spec_print_time(c.created_at, tz) == Some(self.created_at@)
        &&& spec_print_time(c.updated_at, tz) == Some(self.updated_at@)
        &&& spec_print_time_opt(c.deleted_at, tz) == Some(opt_text(self.deleted_at))
    }

    /// Prints a customer with its times in the time zone named `tz`; `None`
    /// when a time cannot be shown there (an unknown zone).
    pub fn new(customer_full: CustomerFull, tz: &str) -> (r: Option<Self>)
        ensures
            r is Some <==> Self::times_show(customer_full, tz@),
            r matches Some(p) ==> p.prints(customer_full, tz@),
    {
        let ghost c = customer_full;
        let created_at = print_time(customer_full.created_at, tz);
        let updated_at = print_time(customer_full.updated_at, tz);
        let deleted_at = print_time_opt(customer_full.deleted_at, tz);
        let status = Self::map_status(customer_full.status.as_str());
        let customer_type = Self::map_customer_type(customer_full.customer_type.as_str());
        match (created_at, updated_at, deleted_at) {
            (Some(created_at), Some(updated_at), Some(deleted_at)) => Some(
                CustomerFullPrint {
                    id: customer_full.id,
                    name: customer_full.name,
                    contact_name: customer_full.contact_name,
                    email: customer_full.email,
                    phone_number: customer_full.phone_number,
                    status,
                    customer_type,
                    created_by_id: customer_full.created_by_id,
                    created_by: customer_full.created_by,
                    billing_address: customer_full.billing_address,
                    mailing_address: customer_full.mailing_address,
                    created_at,
                    updated_at,
                    deleted_at,
                },
            ),
            _ => None,
        }
    }

    /// The identifier of the printed customer.
    pub fn id(&self) -> (r: u128)
        ensures
            r == self.id,
    {
        self.id
    }

    fn map_status(status: &str) -> (r: String)
        ensures
            r@ == customer_status_label(status@),
    {
        if text_eq(status, "active") {
            "Aktív".to_owned()
        } else if text_eq(status, "lead") {
            "Érdeklődő".to_owned()
        } else if text_eq(status, "prospect") {
            "Lehetséges vevő".to_owned()
        } else if text_eq(status, "inactive") {
            "Inaktív".to_owned()
        } else {
            "Ismeretlen státusz".to_owned()
        }
    }

    fn map_customer_type(customer_type: &str) -> (r: String)
        ensures
            r@ == customer_type_label(customer_type@),
    {
        if text_eq(customer_type, "natural") {
            "Természetes személy".to_owned()
        } else if text_eq(customer_type, "legal") {
            "Jogi személy".to_owned()
        } else {
            "Ismeretlen típus".to_owned()
        }
    }
}

/// Each customer status prints as its own word (`active` as "Aktív", `lead` as "Érdeklődő", `prospect` as "Lehetséges vevő", `inactive` as "Inaktív"), and
/// only an unknown one prints as "Ismeretlen státusz": two known values never share a
/// printed word.
pub proof fn lemma_customer_status_labels(s: Seq<char>, t: Seq<char>)
    ensures
        customer_status_label(s) == "Aktív"@ <==> s == "active"@,
        customer_status_label(s) == "Érdeklődő"@ <==> s == "lead"@,
        customer_status_label(s) == "Lehetséges vevő"@ <==> s == "prospect"@,
        customer_status_label(s) == "Inaktív"@ <==> s == "inactive"@,
        customer_status_label(s) == "Ismeretlen státusz"@ <==> !(s == "active"@ || s == "lead"@ || s == "prospect"@ || s == "inactive"@),
        (s == "active"@ || s == "lead"@ || s == "prospect"@ || s == "inactive"@) && customer_status_label(s) == customer_status_label(t) ==> s == t,
{
    reveal_strlit("active");
    assert("active"@.len() == 6);
    assert("active"@[0] == 'a');
    reveal_strlit("lead");
    assert("lead"@.len() == 4);
    assert("lead"@[0] == 'l');
    reveal_strlit("prospect");
    assert("prospect"@.len() == 8);
    assert("prospect"@[0] == 'p');
    reveal_strlit("inactive");
    assert("inactive"@.len() == 8);
    assert("inactive"@[0] == 'i');
    reveal_strlit("Aktív");
    assert("Aktív"@.len() == 5);
    reveal_strlit("Érdeklődő");
    assert("Érdeklődő"@.len() == 9);
    reveal_strlit("Lehetséges vevő");
    assert("Lehetséges vevő"@.len() == 15);
    reveal_strlit("Inaktív");
    assert("Inaktív"@.len() == 7);
    reveal_strlit("Ismeretlen státusz");
    assert("Ismeretlen státusz"@.len() == 18);
}

/// Each customer type prints as its own word (`natural` as "Természetes személy", `legal` as "Jogi személy"), and
/// only an unknown one prints as "Ismeretlen típus": two known values never share a
/// printed word.
pub proof fn lemma_customer_type_labels(s: Seq<char>, t: Seq<char>)
    ensures
        customer_type_label(s) == "Természetes személy"@ <==> s == "natural"@,
        customer_type_label(s) == "Jogi személy"@ <==> s == "legal"@,
        customer_type_label(s) == "Ismeretlen típus"@ <==> !(s == "natural"@ || s == "legal"@),
        (s == "natural"@ || s == "legal"@) && customer_type_label(s) == customer_type_label(t) ==> s == t,
{
    reveal_strlit("natural");
    assert("natural"@.len() == 7);
    assert("natural"@[0] == 'n');
    reveal_strlit("legal");
    assert("legal"@.len() == 5);
    assert("legal"@[0] == 'l');
    reveal_strlit("Természetes személy");
    assert("Természetes személy"@.len() == 19);
    reveal_strlit("Jogi személy");
    assert("Jogi személy"@.len() == 12);
    reveal_strlit("Ismeretlen típus");
    assert("Ismeretlen típus"@.len() == 16);
}

/// A printed customer shows the customer's own data unchanged: only the
/// status, the type and the times are turned into words.
pub proof fn lemma_print_keeps_data(p: CustomerFullPrint, c: CustomerFull, tz: Seq<char>)
    requires
        p.prints(c, tz),
    ensures
        p.id == c.id,
        p.name == c.name,
        p.contact_name == c.contact_name,
        p.email == c.email,
        p.phone_number == c.phone_number,
        p.created_by_id == c.created_by_id,
        p.created_by == c.created_by,
        p.billing_address == c.billing_address,
        p.mailing_address == c.mailing_address,
{
}

} // verus!
