//! The printable view of a stock reservation: its status and reference in
//! words, times in the reader's time zone, with the printed stock record.

use crate::common::text::text_eq;
use crate::common::value_object::opt_text;
use crate::common::time::{print_time, spec_print_time, spec_print_time_opt, Timestamp};
use crate::tenant::inventory::print::InventoryResolvedPrint;
use crate::tenant::inventory_movements::print::{map_reference_type_opt, reference_type_label_opt};
use crate::tenant::inventory_reservations::model::InventoryReservationResolved;
use vstd::prelude::*;

verus! {

/// A stock reservation as it is printed.
#[derive(Debug, Clone, PartialEq)]
pub struct InventoryReservationResolvedPrint {
    pub id: u128,
    pub inventory: InventoryResolvedPrint,
    pub quantity: String,
    pub reference_type: Option<String>,
    pub reference_id: Option<u128>,
    pub reserved_until: Option<String>,
    pub status: String,
    pub created_by_id: u128,
    pub created_by: String,
    pub created_at: String,
    pub updated_at: String,
}

/// The word a reservation status is printed as.
pub open spec fn reservation_status_label(status: Seq<char>) -> Seq<char> {
    if status == "active"@ {
        "Aktív"@
    } else if status == "fulfilled"@ {
        "Teljesített"@
    } else if status == "cancelled"@ {
        "Lemondott"@
    } else if status == "expired"@ {
        "Lejárt"@
    } else {
        "Ismeretlen státusz"@
    }
}

/// The instant of an optional recorded time.
pub open spec fn instant_of(t: Option<crate::common::time::OffsetTimestamp>) -> Option<Timestamp> {
    match t {
        Some(o) => Some(o.at),
        None => None,
    }
}

impl InventoryReservationResolvedPrint {
    /// The times of the reservation can be shown in the zone.
    pub open spec fn times_show(v: InventoryReservationResolved, tz: Seq<char>) -> bool {
        &&& spec_print_time_opt(instant_of(v.reserved_until), tz) is Some
        &&& spec_print_time(v.created_at.at, tz) is Some
        &&& spec_print_time(v.updated_at.at, tz) is Some
    }

    /// This view prints the reservation, with the given printed stock
    /// record, in the zone: the data as it is, status and reference in
    /// words, the times as the zone shows them.
    pub open spec fn prints(
        self,
        v: InventoryReservationResolved,
        inventory: InventoryResolvedPrint,
        tz: Seq<char>,
    ) -> bool {
        &&& self.id == v.id
        &&& self.inventory == inventory
        &&& self.quantity == v.quantity
        &&& opt_text(self.reference_type) == reference_type_label_opt(v.reference_type)
        &&& self.reference_id == v.reference_id
        &&& spec_print_time_opt(instant_of(v.reserved_until), tz) == Some(
            opt_text(self.reserved_until),
        )
        &&& self.status@ == reservation_status_label(v.status@)
        &&& self.created_by_id == v.created_by_id
        &&& self.created_by == v.created_by
        &&& spec_print_time(v.created_at.at, tz) == Some(self.created_at@)
        &&& spec_print_time(v.updated_at.at, tz) == Some(self.updated_at@)
    }

    /// Prints a reservation, with its printed stock record, with its times
    /// in the time zone named `tz`; `None` when a time cannot be shown
    /// there (an unknown zone).
    pub fn new(
        inventory_reservation_resolved: InventoryReservationResolved,
        inventory_resolved_print: InventoryResolvedPrint,
        tz: &str,
    ) -> (r: Option<Self>)
        ensures
            r is Some <==> Self::times_show(inventory_reservation_resolved, tz@),
            r matches Some(p) ==> p.prints(
                inventory_reservation_resolved,
                inventory_resolved_print,
                tz@,
            ),
    {
        let v = inventory_reservation_resolved;
        let reserved_until = match v.reserved_until {
            Some(t) => match print_time(t.at, tz) {
                Some(s) => Some(s),
                None => return None,
            },
            None => None,
        };
        let created_at = print_time(v.created_at.at, tz);
        let updated_at = print_time(v.updated_at.at, tz);
        let status = Self::map_status(v.status.as_str());
        let reference_type = map_reference_type_opt(v.reference_type);
        match (created_at, updated_at) {
            (Some(created_at), Some(updated_at)) => Some(
                InventoryReservationResolvedPrint {
                    id: v.id,
                    inventory: inventory_resolved_print,
                    quantity: v.quantity,
                    reference_type,
                    reference_id: v.reference_id,
                    reserved_until,
                    status,
                    created_by_id: v.created_by_id,
                    created_by: v.created_by,
                    created_at,
                    updated_at,
                },
            ),
            _ => None,
        }
    }

    fn map_status(status: &str) -> (r: String)
        ensures
            r@ == reservation_status_label(status@),
    {
        if text_eq(status, "active") {
            "Aktív".to_owned()
        } else if text_eq(status, "fulfilled") {
            "Teljesített".to_owned()
        } else if text_eq(status, "cancelled") {
            "Lemondott".to_owned()
        } else if text_eq(status, "expired") {
            "Lejárt".to_owned()
        } else {
            "Ismeretlen státusz".to_owned()
        }
    }
}

/// Each reservation status prints as its own word (`active` as "Aktív", `fulfilled` as "Teljesített", `cancelled` as "Lemondott", `expired` as "Lejárt"), and
/// only an unknown one prints as "Ismeretlen státusz": two known values never share a
/// printed word.
pub proof fn lemma_reservation_status_labels(s: Seq<char>, t: Seq<char>)
    ensures
        reservation_status_label(s) == "Aktív"@ <==> s == "active"@,
        reservation_status_label(s) == "Teljesített"@ <==> s == "fulfilled"@,
        reservation_status_label(s) == "Lemondott"@ <==> s == "cancelled"@,
        reservation_status_label(s) == "Lejárt"@ <==> s == "expired"@,
        reservation_status_label(s) == "Ismeretlen státusz"@ <==> !(s == "active"@ || s == "fulfilled"@ || s == "cancelled"@ || s == "expired"@),
        (s == "active"@ || s == "fulfilled"@ || s == "cancelled"@ || s == "expired"@) && reservation_status_label(s) == reservation_status_label(t) ==> s == t,
{
    reveal_strlit("active");
    assert("active"@.len() == 6);
    assert("active"@[0] == 'a');
    reveal_strlit("fulfilled");
    assert("fulfilled"@.len() == 9);
    assert("fulfilled"@[0] == 'f');
    reveal_strlit("cancelled");
    assert("cancelled"@.len() == 9);
    assert("cancelled"@[0] == 'c');
    reveal_strlit("expired");
    assert("expired"@.len() == 7);
    assert("expired"@[0] == 'e');
    reveal_strlit("Aktív");
    assert("Aktív"@.len() == 5);
    reveal_strlit("Teljesített");
    assert("Teljesített"@.len() == 11);
    reveal_strlit("Lemondott");
    assert("Lemondott"@.len() == 9);
    reveal_strlit("Lejárt");
    assert("Lejárt"@.len() == 6);
    reveal_strlit("Ismeretlen státusz");
    assert("Ismeretlen státusz"@.len() == 18);
}

} // verus!
