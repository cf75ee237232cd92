//! The modules of a tenant's workspace.

pub mod address;
pub mod customers;
pub mod inventory;
pub mod inventory_movements;
pub mod inventory_reservations;
pub mod products;
pub mod services;

use vstd::prelude::*;

verus! {

/// The modules a tenant can use.
#[derive(Copy, Clone, PartialEq, Eq, PartialOrd, Ord, Debug)]
pub enum Modules {
    Customers,
    Warehouses,
    Taxes,
    Products,
    Inventory,
    InventoryMovements,
    InventoryReservations,
    Services,
    Tasks,
    Worksheets,
}

impl Modules {
    /// The name a module is displayed and stored under.
    pub open spec fn spec_name(self) -> Seq<char> {
        match self {
            Modules::Customers => "customers"@,
            Modules::Warehouses => "warehouses"@,
            Modules::Taxes => "taxes"@,
            Modules::Products => "products"@,
            Modules::Inventory => "inventory"@,
            Modules::InventoryMovements => "inventory_movements"@,
            Modules::InventoryReservations => "inventory_reservations"@,
            Modules::Services => "services"@,
            Modules::Tasks => "tasks"@,
            Modules::Worksheets => "worksheets"@,
        }
    }

    /// The name a module is displayed and stored under.
    pub fn name(&self) -> (r: &'static str)
        ensures
            r@ == self.spec_name(),
    {
        match self {
            Modules::Customers => "customers",
            Modules::Warehouses => "warehouses",
            Modules::Taxes => "taxes",
            Modules::Products => "products",
            Modules::Inventory => "inventory",
            Modules::InventoryMovements => "inventory_movements",
            Modules::InventoryReservations => "inventory_reservations",
            Modules::Services => "services",
            Modules::Tasks => "tasks",
            Modules::Worksheets => "worksheets",
        }
    }

    /// The name as it is displayed.
    pub fn to_string(&self) -> (r: String)
        ensures
            r@ == self.spec_name(),
    {
        self.name().to_owned()
    }
}

/// The length and first three characters of a module's name, which tell
/// the modules apart.
spec fn name_key(m: Modules) -> (nat, char, char, char) {
    match m {
        Modules::Customers => (9, 'c', 'u', 's'),
        Modules::Warehouses => (10, 'w', 'a', 'r'),
        Modules::Taxes => (5, 't', 'a', 'x'),
        Modules::Products => (8, 'p', 'r', 'o'),
        Modules::Inventory => (9, 'i', 'n', 'v'),
        Modules::InventoryMovements => (19, 'i', 'n', 'v'),
        Modules::InventoryReservations => (22, 'i', 'n', 'v'),
        Modules::Services => (8, 's', 'e', 'r'),
        Modules::Tasks => (5, 't', 'a', 's'),
        Modules::Worksheets => (10, 'w', 'o', 'r'),
    }
}

proof fn lemma_name_key(m: Modules)
    ensures
        (m.spec_name().len(), m.spec_name()[0], m.spec_name()[1], m.spec_name()[2]) == name_key(m),
{
    match m {
        Modules::Customers => {
            reveal_strlit("customers");
        },
        Modules::Warehouses => {
            reveal_strlit("warehouses");
        },
        Modules::Taxes => {
            reveal_strlit("taxes");
        },
        Modules::Products => {
            reveal_strlit("products");
        },
        Modules::Inventory => {
            reveal_strlit("inventory");
        },
        Modules::InventoryMovements => {
            reveal_strlit("inventory_movements");
        },
        Modules::InventoryReservations => {
            reveal_strlit("inventory_reservations");
        },
        Modules::Services => {
            reveal_strlit("services");
        },
        Modules::Tasks => {
            reveal_strlit("tasks");
        },
        Modules::Worksheets => {
            reveal_strlit("worksheets");
        },
    }
}

/// Different modules have different names, so a stored name tells its
/// module.
pub proof fn lemma_module_names_distinct(a: Modules, b: Modules)
    requires
        a != b,
    ensures
        a.spec_name() != b.spec_name(),
{
    lemma_name_key(a);
    lemma_name_key(b);
}

} // verus!
