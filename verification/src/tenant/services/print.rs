//! The printable view of a service: its status in words, times in the
//! reader's time zone.

use crate::common::value_object::opt_text;
use crate::common::time::{print_time, print_time_opt, spec_print_time, spec_print_time_opt};
use crate::tenant::products::print::{activity_status_label, map_activity_status};
use crate::tenant::services::model::ServiceResolved;
use vstd::prelude::*;

verus! {

/// A service as it is printed.
#[derive(Debug, Clone, PartialEq)]
pub struct ServicesResolvedPrint {
    pub id: u128,
    pub name: String,
    pub description: Option<String>,
    pub default_price: Option<String>,
    pub default_tax_id: Option<u128>,
    pub default_tax: Option<String>,
    pub currency_code: Option<String>,
    pub status: String,
    pub created_by_id: u128,
    pub created_by: String,
    pub created_at: String,
    pub updated_at: String,
    pub deleted_at: Option<String>,
}

impl ServicesResolvedPrint {
    /// The times of the service can be shown in the zone.
    pub open spec fn times_show(v: ServiceResolved, tz: Seq<char>) -> bool {
        &&& spec_print_time(v.created_at, tz) is Some
        &&& spec_print_time(v.updated_at, tz) is Some
        &&& spec_print_time_opt(v.deleted_at, tz) is Some
    }

    /// This view prints the service in the zone: the data as it is, the
    /// status in words, the times as the zone shows them.
    pub open spec fn prints(self, v: ServiceResolved, tz: Seq<char>) -> bool {
        &&& self.id == v.id
        &&& self.name == v.name
        &&& self.description == v.description
        &&& self.default_price == v.default_price
        &&& self.default_tax_id == v.default_tax_id
        &&& self.default_tax == v.default_tax
        &&& self.currency_code == v.currency_code
        &&& self.status@ == activity_status_label(v.status@)
        &&& self.created_by_id == v.created_by_id
        &&& self.created_by == v.created_by
        &&& spec_print_time(v.created_at, tz) == Some(self.created_at@)
        &&& spec_print_time(v.updated_at, tz) == Some(self.updated_at@)
        &&& spec_print_time_opt(v.deleted_at, tz) == Some(opt_text(self.deleted_at))
    }

    /// Prints a service with its times in the time zone named `tz`; `None`
    /// when a time cannot be shown there (an unknown zone).
    pub fn from_service_resolved(service_resolved: ServiceResolved, tz: &str) -> (r: Option<Self>)
        ensures
            r is Some <==> Self::times_show(service_resolved, tz@),
            r matches Some(p) ==> p.prints(service_resolved, tz@),
    {
        let v = service_resolved;
        let created_at = print_time(v.created_at, tz);
        let updated_at = print_time(v.updated_at, tz);
        let deleted_at = print_time_opt(v.deleted_at, tz);
        let status = map_activity_status(v.status.as_str());
        match (created_at, updated_at, deleted_at) {
            (Some(created_at), Some(updated_at), Some(deleted_at)) => Some(
                ServicesResolvedPrint {
                    id: v.id,
                    name: v.name,
                    description: v.description,
                    default_price: v.default_price,
                    default_tax_id: v.default_tax_id,
                    default_tax: v.default_tax,
                    currency_code: v.currency_code,
                    status,
                    created_by_id: v.created_by_id,
                    created_by: v.created_by,
                    created_at,
                    updated_at,
                    deleted_at,
                },
            ),
            _ => None,
        }
    }
}

} // verus!
