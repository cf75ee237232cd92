//! The printable view of a stock record: its status in words, times in the
//! reader's time zone.

use crate::common::text::text_eq;
use crate::common::value_object::opt_text;
use crate::common::time::{print_time, print_time_opt, spec_print_time, spec_print_time_opt};
use crate::tenant::inventory::model::InventoryResolved;
use vstd::prelude::*;

verus! {

/// A stock record as it is printed.
#[derive(Debug, Clone, PartialEq)]
pub struct InventoryResolvedPrint {
    pub id: u128,
    pub product_id: u128,
    pub product: String,
    pub warehouse_id: u128,
    pub warehouse: String,
    pub quantity_on_hand: String,
    pub quantity_reserved: String,
    pub quantity_available: String,
    pub minimum_stock: Option<String>,
    pub maximum_stock: Option<String>,
    pub currency_code: String,
    pub currency: String,
    pub status: String,
    pub created_by_id: u128,
    pub created_by: String,
    pub created_at: String,
    pub updated_at: String,
    pub deleted_at: Option<String>,
}

/// The word a stock status is printed as.
pub open spec fn inventory_status_label(status: Seq<char>) -> Seq<char> {
    if status == "active"@ {
        "Aktív"@
    } else if status == "discontinued"@ {
        "Kivezetett"@
    } else if status == "inactive"@ {
        "Inaktív"@
    } else {
        "Ismeretlen státusz"@
    }
}

impl InventoryResolvedPrint {
    /// The times of the record can be shown in the zone.
    pub open spec fn times_show(v: InventoryResolved, tz: Seq<char>) -> bool {
        &&& spec_print_time(v.created_at, tz) is Some
        &&& spec_print_time(v.updated_at, tz) is Some
        &&& spec_print_time_opt(v.deleted_at, tz) is Some
    }

    /// This view prints the record in the zone: the data as it is, the
    /// status in words, the times as the zone shows them.
    pub open spec fn prints(self, v: InventoryResolved, tz: Seq<char>) -> bool {
        &&& self.id == v.id
        &&& self.product_id == v.product_id
        &&& self.product == v.product
        &&& self.warehouse_id == v.warehouse_id
        &&& self.warehouse == v.warehouse
        &&& self.quantity_on_hand == v.quantity_on_hand
        &&& self.quantity_reserved == v.quantity_reserved
        &&& self.quantity_available == v.quantity_available
        &&& self.minimum_stock == v.minimum_stock
        &&& self.maximum_stock == v.maximum_stock
        &&& self.currency_code == v.currency_code
        &&& self.currency == v.currency
        &&& self.status@ == inventory_status_label(v.status@)
        &&& self.created_by_id == v.created_by_id
        &&& self.created_by == v.created_by
        &&& spec_print_time(v.created_at, tz) == Some(self.created_at@)
        &&& spec_print_time(v.updated_at, tz) == Some(self.updated_at@)
        &&& spec_print_time_opt(v.deleted_at, tz) == Some(opt_text(self.deleted_at))
    }

    /// Prints a stock record with its times in the time zone named `tz`;
    /// `None` when a time cannot be shown there (an unknown zone).
    pub fn from_inventory_resolved(inventory_resolved: InventoryResolved, tz: &str) -> (r: Option<
        Self,
    >)
        ensures
            r is Some <==> Self::times_show(inventory_resolved, tz@),
            r matches Some(p) ==> p.prints(inventory_resolved, tz@),
    {
        let v = inventory_resolved;
        let created_at = print_time(v.created_at, tz);
        let updated_at = print_time(v.updated_at, tz);
        let deleted_at = print_time_opt(v.deleted_at, tz);
        let status = Self::map_status(v.status.as_str());
        match (created_at, updated_at, deleted_at) {
            (Some(created_at), Some(updated_at), Some(deleted_at)) => Some(
                InventoryResolvedPrint {
                    id: v.id,
                    product_id: v.product_id,
                    product: v.product,
                    warehouse_id: v.warehouse_id,
                    warehouse: v.warehouse,
                    quantity_on_hand: v.quantity_on_hand,
                    quantity_reserved: v.quantity_reserved,
                    quantity_available: v.quantity_available,
                    minimum_stock: v.minimum_stock,
                    maximum_stock: v.maximum_stock,
                    currency_code: v.currency_code,
                    currency: v.currency,
                    status,
                    created_by_id: v.created_by_id,
                    created_by: v.created_by,
                    created_at,
                    updated_at,
                    deleted_at,
                },
            ),
            _ => None,
        }
    }

    fn map_status(status: &str) -> (r: String)
        ensures
            r@ == inventory_status_label(status@),
    {
        if text_eq(status, "active") {
            "Aktív".to_owned()
        } else if text_eq(status, "discontinued") {
            "Kivezetett".to_owned()
        } else if text_eq(status, "inactive") {
            "Inaktív".to_owned()
        } else {
            "Ismeretlen státusz".to_owned()
        }
    }
}

/// Each stock status prints as its own word (`active` as "Aktív", `discontinued` as "Kivezetett", `inactive` as "Inaktív"), and
/// only an unknown one prints as "Ismeretlen státusz": two known values never share a
/// printed word.
pub proof fn lemma_inventory_status_labels(s: Seq<char>, t: Seq<char>)
    ensures
        inventory_status_label(s) == "Aktív"@ <==> s == "active"@,
        inventory_status_label(s) == "Kivezetett"@ <==> s == "discontinued"@,
        inventory_status_label(s) == "Inaktív"@ <==> s == "inactive"@,
        inventory_status_label(s) == "Ismeretlen státusz"@ <==> !(s == "active"@ || s == "discontinued"@ || s == "inactive"@),
        (s == "active"@ || s == "discontinued"@ || s == "inactive"@) && inventory_status_label(s) == inventory_status_label(t) ==> s == t,
{
    reveal_strlit("active");
    assert("active"@.len() == 6);
    assert("active"@[0] == 'a');
    reveal_strlit("discontinued");
    assert("discontinued"@.len() == 12);
    assert("discontinued"@[0] == 'd');
    reveal_strlit("inactive");
    assert("inactive"@.len() == 8);
    assert("inactive"@[0] == 'i');
    reveal_strlit("Aktív");
    assert("Aktív"@.len() == 5);
    reveal_strlit("Kivezetett");
    assert("Kivezetett"@.len() == 10);
    reveal_strlit("Inaktív");
    assert("Inaktív"@.len() == 7);
    reveal_strlit("Ismeretlen státusz");
    assert("Ismeretlen státusz"@.len() == 18);
}

} // verus!
