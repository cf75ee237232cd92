//! The printable view of a product: its status in words, times in the
//! reader's time zone.

use crate::common::text::text_eq;
use crate::common::value_object::opt_text;
use crate::common::time::{print_time, print_time_opt, spec_print_time, spec_print_time_opt};
use crate::tenant::products::model::ProductResolved;
use vstd::prelude::*;

verus! {

/// A product as it is printed.
#[derive(Debug, Clone, PartialEq)]
pub struct ProductsResolvedPrint {
    pub id: u128,
    pub name: String,
    pub description: Option<String>,
    pub unit_of_measure_id: u128,
    pub unit_of_measure: String,
    pub status: String,
    pub created_by_id: u128,
    pub created_by: String,
    pub created_at: String,
    pub updated_at: String,
    pub deleted_at: Option<String>,
}

/// The word an active/inactive status is printed as.
pub open spec fn activity_status_label(status: Seq<char>) -> Seq<char> {
    if status == "active"@ {
        "Aktív"@
    } else if status == "inactive"@ {
        "Inaktív"@
    } else {
        "Ismeretlen státusz"@
    }
}

/// Prints an active/inactive status.
pub fn map_activity_status(status: &str) -> (r: String)
    ensures
        r@ == activity_status_label(status@),
{
    if text_eq(status, "active") {
        "Aktív".to_owned()
    } else if text_eq(status, "inactive") {
        "Inaktív".to_owned()
    } else {
        "Ismeretlen státusz".to_owned()
    }
}

impl ProductsResolvedPrint {
    /// The times of the product can be shown in the zone.
    pub open spec fn times_show(v: ProductResolved, tz: Seq<char>) -> bool {
        &&& spec_print_time(v.created_at, tz) is Some
        &&& spec_print_time(v.updated_at, tz) is Some
        &&& spec_print_time_opt(v.deleted_at, tz) is Some
    }

    /// This view prints the product in the zone: the data as it is, the
    /// status in words, the times as the zone shows them.
    pub open spec fn prints(self, v: ProductResolved, tz: Seq<char>) -> bool {
        &&& self.id == v.id
        &&& self.name == v.name
        &&& self.description == v.description
        &&& self.unit_of_measure_id == v.unit_of_measure_id
        &&& self.unit_of_measure == v.unit_of_measure
        &&& self.status@ == activity_status_label(v.status@)
        &&& self.created_by_id == v.created_by_id
        &&& self.created_by == v.created_by
        &&& spec_print_time(v.created_at, tz) == Some(self.created_at@)
        &&& spec_print_time(v.updated_at, tz) == Some(self.updated_at@)
        &&& spec_print_time_opt(v.deleted_at, tz) == Some(opt_text(self.deleted_at))
    }

    /// Prints a product with its times in the time zone named `tz`; `None`
    /// when a time cannot be shown there (an unknown zone).
    pub fn from_product_resolved(product_resolved: ProductResolved, tz: &str) -> (r: Option<Self>)
        ensures
            r is Some <==> Self::times_show(product_resolved, tz@),
            r matches Some(p) ==> p.prints(product_resolved, tz@),
    {
        let v = product_resolved;
        let created_at = print_time(v.created_at, tz);
        let updated_at = print_time(v.updated_at, tz);
        let deleted_at = print_time_opt(v.deleted_at, tz);
        let status = map_activity_status(v.status.as_str());
        match (created_at, updated_at, deleted_at) {
            (Some(created_at), Some(updated_at), Some(deleted_at)) => Some(
                ProductsResolvedPrint {
                    id: v.id,
                    name: v.name,
                    description: v.description,
                    unit_of_measure_id: v.unit_of_measure_id,
                    unit_of_measure: v.unit_of_measure,
                    status,
                    created_by_id: v.created_by_id,
                    created_by: v.created_by,
                    created_at,
                    updated_at,
                    deleted_at,
                },
            ),
            _ => None,
        }
    }
}

/// Each activity status prints as its own word (`active` as "Aktív", `inactive` as "Inaktív"), and
/// only an unknown one prints as "Ismeretlen státusz": two known values never share a
/// printed word.
pub proof fn lemma_activity_status_labels(s: Seq<char>, t: Seq<char>)
    ensures
        activity_status_label(s) == "Aktív"@ <==> s == "active"@,
        activity_status_label(s) == "Inaktív"@ <==> s == "inactive"@,
        activity_status_label(s) == "Ismeretlen státusz"@ <==> !(s == "active"@ || s == "inactive"@),
        (s == "active"@ || s == "inactive"@) && activity_status_label(s) == activity_status_label(t) ==> s == t,
{
    reveal_strlit("active");
    assert("active"@.len() == 6);
    assert("active"@[0] == 'a');
    reveal_strlit("inactive");
    assert("inactive"@.len() == 8);
    assert("inactive"@[0] == 'i');
    reveal_strlit("Aktív");
    assert("Aktív"@.len() == 5);
    reveal_strlit("Inaktív");
    assert("Inaktív"@.len() == 7);
    reveal_strlit("Ismeretlen státusz");
    assert("Ismeretlen státusz"@.len() == 18);
}

} // verus!
