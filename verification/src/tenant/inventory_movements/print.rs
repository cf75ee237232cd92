//! The printable view of a stock movement: its kind and reference in words,
//! times in the reader's time zone.

use crate::common::text::text_eq;
use crate::common::value_object::opt_text;
use crate::common::time::{print_time, spec_print_time};
use crate::tenant::inventory_movements::model::InventoryMovementResolved;
use vstd::prelude::*;

verus! {

/// A stock movement as it is printed.
#[derive(Debug, Clone, PartialEq)]
pub struct InventoryMovementsResolvedPrint {
    pub id: u128,
    pub inventory_id: u128,
    pub movement_type: String,
    pub quantity: String,
    pub reference_type: Option<String>,
    pub reference_id: Option<u128>,
    pub unit_price: Option<String>,
    pub total_price: Option<String>,
    pub tax_id: u128,
    pub tax: Option<String>,
    pub movement_date: String,
    pub created_by_id: u128,
    pub created_by: String,
    pub created_at: String,
}

/// The word a movement kind is printed as.
pub open spec fn movement_type_label(movement_type: Seq<char>) -> Seq<char> {
    if movement_type == "in"@ {
        "Bevétel"@
    } else if movement_type == "out"@ {
        "Kiadás"@
    } else {
        "Ismeretlen művelet"@
    }
}

/// The word the kind of a referred document is printed as.
pub open spec fn reference_type_label(reference_type: Seq<char>) -> Seq<char> {
    if reference_type == "worksheets"@ {
        "Munkalap"@
    } else {
        "Ismeretlen referencia típus"@
    }
}

/// The printed kind of an optional referred document.
pub open spec fn reference_type_label_opt(reference_type: Option<String>) -> Option<Seq<char>> {
    match reference_type {
        Some(t) => Some(reference_type_label(t@)),
        None => None,
    }
}

/// Prints the kind of a referred document.
pub fn map_reference_type(reference_type: &str) -> (r: String)
    ensures
        r@ == reference_type_label(reference_type@),
{
    if text_eq(reference_type, "worksheets") {
        "Munkalap".to_owned()
    } else {
        "Ismeretlen referencia típus".to_owned()
    }
}

/// Prints the kind of an optional referred document.
pub fn map_reference_type_opt(reference_type: Option<String>) -> (r: Option<String>)
    ensures
        opt_text(r) == reference_type_label_opt(reference_type),
{
    match reference_type {
        Some(t) => Some(map_reference_type(t.as_str())),
        None => None,
    }
}

impl InventoryMovementsResolvedPrint {
    /// The times of the movement can be shown in the zone.
    pub open spec fn times_show(v: InventoryMovementResolved, tz: Seq<char>) -> bool {
        &&& spec_print_time(v.movement_date, tz) is Some
        &&& spec_print_time(v.created_at, tz) is Some
    }

    /// This view prints the movement in the zone: the data as it is, the
    /// kind and reference in words, the times as the zone shows them.
    pub open spec fn prints(self, v: InventoryMovementResolved, tz: Seq<char>) -> bool {
        &&& self.id == v.id
        &&& self.inventory_id == v.inventory_id
        &&& self.movement_type@ == movement_type_label(v.movement_type@)
        &&& self.quantity == v.quantity
        &&& opt_text(self.reference_type) == reference_type_label_opt(
            v.reference_type,
        )
        &&& self.reference_id == v.reference_id
        &&& self.unit_price == v.unit_price
        &&& self.total_price == v.total_price
        &&& self.tax_id == v.tax_id
        &&& self.tax == v.tax
        &&& spec_print_time(v.movement_date, tz) == Some(self.movement_date@)
        &&& self.created_by_id == v.created_by_id
        &&& self.created_by == v.created_by
        &&& spec_print_time(v.created_at, tz) == Some(self.created_at@)
    }

    /// Prints a stock movement with its times in the time zone named `tz`;
    /// `None` when a time cannot be shown there (an unknown zone).
    pub fn from_inventory_movements_resolved(
        inventory_movement_resolved: InventoryMovementResolved,
        tz: &str,
    ) -> (r: Option<Self>)
        ensures
            r is Some <==> Self::times_show(inventory_movement_resolved, tz@),
            r matches Some(p) ==> p.prints(inventory_movement_resolved, tz@),
    {
        let v = inventory_movement_resolved;
        let movement_date = print_time(v.movement_date, tz);
        let created_at = print_time(v.created_at, tz);
        let movement_type = Self::map_movement_type(v.movement_type.as_str());
        let reference_type = map_reference_type_opt(v.reference_type);
        match (movement_date, created_at) {
            (Some(movement_date), Some(created_at)) => Some(
                InventoryMovementsResolvedPrint {
                    id: v.id,
                    inventory_id: v.inventory_id,
                    movement_type,
                    quantity: v.quantity,
                    reference_type,
                    reference_id: v.reference_id,
                    unit_price: v.unit_price,
                    total_price: v.total_price,
                    tax_id: v.tax_id,
                    tax: v.tax,
                    movement_date,
                    created_by_id: v.created_by_id,
                    created_by: v.created_by,
                    created_at,
                },
            ),
            _ => None,
        }
    }

    fn map_movement_type(movement_type: &str) -> (r: String)
        ensures
            r@ == movement_type_label(movement_type@),
    {
        if text_eq(movement_type, "in") {
            "Bevétel".to_owned()
        } else if text_eq(movement_type, "out") {
            "Kiadás".to_owned()
        } else {
            "Ismeretlen művelet".to_owned()
        }
    }
}

/// Each movement type prints as its own word (`in` as "Bevétel", `out` as "Kiadás"), and
/// only an unknown one prints as "Ismeretlen művelet": two known values never share a
/// printed word.
pub proof fn lemma_movement_type_labels(s: Seq<char>, t: Seq<char>)
    ensures
        movement_type_label(s) == "Bevétel"@ <==> s == "in"@,
        movement_type_label(s) == "Kiadás"@ <==> s == "out"@,
        movement_type_label(s) == "Ismeretlen művelet"@ <==> !(s == "in"@ || s == "out"@),
        (s == "in"@ || s == "out"@) && movement_type_label(s) == movement_type_label(t) ==> s == t,
{
    reveal_strlit("in");
    assert("in"@.len() == 2);
    assert("in"@[0] == 'i');
    reveal_strlit("out");
    assert("out"@.len() == 3);
    assert("out"@[0] == 'o');
    reveal_strlit("Bevétel");
    assert("Bevétel"@.len() == 7);
    reveal_strlit("Kiadás");
    assert("Kiadás"@.len() == 6);
    reveal_strlit("Ismeretlen művelet");
    assert("Ismeretlen művelet"@.len() == 18);
}

/// Each kind of referred document prints as its own word (`worksheets` as "Munkalap"), and
/// only an unknown one prints as "Ismeretlen referencia típus": two known values never share a
/// printed word.
pub proof fn lemma_reference_type_labels(s: Seq<char>, t: Seq<char>)
    ensures
        reference_type_label(s) == "Munkalap"@ <==> s == "worksheets"@,
        reference_type_label(s) == "Ismeretlen referencia típus"@ <==> !(s == "worksheets"@),
        (s == "worksheets"@) && reference_type_label(s) == reference_type_label(t) ==> s == t,
{
    reveal_strlit("worksheets");
    assert("worksheets"@.len() == 10);
    assert("worksheets"@[0] == 'w');
    reveal_strlit("Munkalap");
    assert("Munkalap"@.len() == 8);
    reveal_strlit("Ismeretlen referencia típus");
    assert("Ismeretlen referencia típus"@.len() == 27);
}

} // verus!
