use chrono::{DateTime, Local, Utc};
use indexmap::IndexMap;
use obvia::common::time::{print_format_for, print_time, rfc3339, OffsetTimestamp, Timestamp};
use obvia::tenant::customers::model::CustomerFull;
use obvia::tenant::customers::print::CustomerFullPrint;
use obvia::tenant::inventory::model::InventoryResolved;
use obvia::tenant::inventory::print::InventoryResolvedPrint;
use obvia::tenant::inventory_movements::model::InventoryMovementResolved;
use obvia::tenant::inventory_movements::print::InventoryMovementsResolvedPrint;
use obvia::tenant::inventory_reservations::model::InventoryReservationResolved;
use obvia::tenant::inventory_reservations::print::InventoryReservationResolvedPrint;
use obvia::tenant::products::model::ProductResolved;
use obvia::tenant::products::print::ProductsResolvedPrint;
use obvia::tenant::services::model::ServiceResolved;
use obvia::tenant::services::print::ServicesResolvedPrint;

const ZONE: &str = "Europe/Budapest";
const PRINTED: &str = "2026. 01. 01. 02:00:00 (Europe/Budapest)";

fn input_time() -> Timestamp {
    let input_date: DateTime<Utc> = "2026-01-01T01:00:00Z".parse().unwrap();
    Timestamp {
        secs: input_date.timestamp(),
        nanos: input_date.timestamp_subsec_nanos(),
    }
}

fn offset_time(t: DateTime<Local>) -> OffsetTimestamp {
    OffsetTimestamp {
        at: Timestamp {
            secs: t.timestamp(),
            nanos: t.timestamp_subsec_nanos(),
        },
        offset_secs: t.offset().local_minus_utc(),
    }
}

fn new_id() -> u128 {
    uuid::Uuid::new_v4().as_u128()
}

#[test]
fn test_from_customer_resolved() {
    let customer_id = new_id();
    let created_by_id = new_id();
    let customer_full = CustomerFull {
        id: customer_id,
        name: "Test Customer".to_string(),
        contact_name: None,
        email: "test.customer@example.com".to_string(),
        phone_number: Some("+36301234567".to_string()),
        status: "active".to_string(),
        customer_type: "natural".to_string(),
        created_by_id,
        created_by: "Test User".to_string(),
        created_at: input_time(),
        updated_at: input_time(),
        deleted_at: None,
        billing_address: None,
        mailing_address: None,
    };
    let customer_resolved_print = CustomerFullPrint::new(customer_full, ZONE).unwrap();
    let customer_resolved_print_expected = CustomerFullPrint {
        id: customer_id,
        name: "Test Customer".to_string(),
        contact_name: None,
        email: "test.customer@example.com".to_string(),
        phone_number: Some("+36301234567".to_string()),
        status: "Aktív".to_string(),
        customer_type: "Természetes személy".to_string(),
        created_by_id,
        created_by: "Test User".to_string(),
        billing_address: None,
        mailing_address: None,
        created_at: PRINTED.to_string(),
        updated_at: PRINTED.to_string(),
        deleted_at: None,
    };

    assert_eq!(customer_resolved_print, customer_resolved_print_expected);
    assert_eq!(customer_resolved_print.id(), customer_id);
}

#[test]
fn customer_print_labels_and_unknown_zone() {
    let base = CustomerFull {
        id: 1,
        name: "Kft".to_string(),
        contact_name: Some("Elek".to_string()),
        email: "a@b.hu".to_string(),
        phone_number: None,
        status: "prospect".to_string(),
        customer_type: "legal".to_string(),
        created_by_id: 2,
        created_by: "U".to_string(),
        created_at: input_time(),
        updated_at: input_time(),
        deleted_at: Some(input_time()),
        billing_address: Some("1011 Budapest, Fő utca 1.".to_string()),
        mailing_address: None,
    };
    let p = CustomerFullPrint::new(base.clone(), ZONE).unwrap();
    assert_eq!(p.status, "Lehetséges vevő");
    assert_eq!(p.customer_type, "Jogi személy");
    assert_eq!(p.deleted_at, Some(PRINTED.to_string()));
    assert_eq!(p.billing_address, Some("1011 Budapest, Fő utca 1.".to_string()));

    let mut odd = base.clone();
    odd.status = "lead".to_string();
    odd.customer_type = "robot".to_string();
    let p = CustomerFullPrint::new(odd, "UTC").unwrap();
    assert_eq!(p.status, "Érdeklődő");
    assert_eq!(p.customer_type, "Ismeretlen típus");
    assert_eq!(p.created_at, "2026. 01. 01. 01:00:00 (UTC)");

    let mut unknown = base.clone();
    unknown.status = "deleted".to_string();
    assert_eq!(
        CustomerFullPrint::new(unknown, ZONE).unwrap().status,
        "Ismeretlen státusz"
    );
    assert!(CustomerFullPrint::new(base, "Mars/Olympus").is_none());
}

fn inventory_resolved(inventory_id: u128, product_id: u128, warehouse_id: u128, created_by_id: u128) -> InventoryResolved {
    InventoryResolved {
        id: inventory_id,
        product_id,
        product: "Teszt termék".to_string(),
        warehouse_id,
        warehouse: "Teszt raktár".to_string(),
        quantity_on_hand: "10".to_string(),
        quantity_reserved: "20".to_string(),
        quantity_available: "30".to_string(),
        minimum_stock: Some("40".to_string()),
        maximum_stock: Some("50".to_string()),
        currency_code: "HUF".to_string(),
        currency: "Forint".to_string(),
        status: "active".to_string(),
        created_by_id,
        created_by: "Test User".to_string(),
        created_at: input_time(),
        updated_at: input_time(),
        deleted_at: None,
    }
}

#[test]
fn test_from_inventory_resolved() {
    let inventory_id = new_id();
    let product_id = new_id();
    let warehouse_id = new_id();
    let created_by_id = new_id();
    let inventory_resolved_print = InventoryResolvedPrint::from_inventory_resolved(
        inventory_resolved(inventory_id, product_id, warehouse_id, created_by_id),
        ZONE,
    )
    .unwrap();
    let inventory_resolved_print_expected = InventoryResolvedPrint {
        id: inventory_id,
        product_id,
        product: "Teszt termék".to_string(),
        warehouse_id,
        warehouse: "Teszt raktár".to_string(),
        quantity_on_hand: "10".to_string(),
        quantity_reserved: "20".to_string(),
        quantity_available: "30".to_string(),
        minimum_stock: Some("40".to_string()),
        maximum_stock: Some("50".to_string()),
        currency_code: "HUF".to_string(),
        currency: "Forint".to_string(),
        status: "Aktív".to_string(),
        created_by_id,
        created_by: "Test User".to_string(),
        created_at: PRINTED.to_string(),
        updated_at: PRINTED.to_string(),
        deleted_at: None,
    };

    assert_eq!(inventory_resolved_print, inventory_resolved_print_expected);
}

#[test]
fn inventory_print_status_labels() {
    for (status, label) in [
        ("active", "Aktív"),
        ("discontinued", "Kivezetett"),
        ("inactive", "Inaktív"),
        ("gone", "Ismeretlen státusz"),
    ] {
        let mut v = inventory_resolved(1, 2, 3, 4);
        v.status = status.to_string();
        let p = InventoryResolvedPrint::from_inventory_resolved(v, ZONE).unwrap();
        assert_eq!(p.status, label);
    }
}

#[test]
fn test_from_inventory_movements_resolved() {
    let inventory_movement_id = new_id();
    let inventory_id = new_id();
    let reference_id = Some(new_id());
    let tax_id = new_id();
    let created_by_id = new_id();

    let inventory_movement_resolved = InventoryMovementResolved {
        id: inventory_movement_id,
        inventory_id,
        movement_type: "in".to_string(),
        quantity: "10".to_string(),
        reference_type: Some("worksheets".to_string()),
        reference_id,
        unit_price: Some("20".to_string()),
        total_price: Some("30".to_string()),
        tax_id,
        tax: Some("Áfa".to_string()),
        movement_date: input_time(),
        created_by_id,
        created_by: "Test User".to_string(),
        created_at: input_time(),
    };
    let inventory_movement_resolved_print =
        InventoryMovementsResolvedPrint::from_inventory_movements_resolved(
            inventory_movement_resolved,
            ZONE,
        )
        .unwrap();
    let inventory_movement_resolved_print_expected = InventoryMovementsResolvedPrint {
        id: inventory_movement_id,
        inventory_id,
        movement_type: "Bevétel".to_string(),
        quantity: "10".to_string(),
        reference_type: Some("Munkalap".to_string()),
        reference_id,
        unit_price: Some("20".to_string()),
        total_price: Some("30".to_string()),
        tax_id,
        tax: Some("Áfa".to_string()),
        movement_date: PRINTED.to_string(),
        created_by_id,
        created_by: "Test User".to_string(),
        created_at: PRINTED.to_string(),
    };

    assert_eq!(
        inventory_movement_resolved_print,
        inventory_movement_resolved_print_expected
    );
}

#[test]
fn movement_print_labels() {
    let movement = |kind: &str, reference: Option<&str>| InventoryMovementResolved {
        id: 1,
        inventory_id: 2,
        movement_type: kind.to_string(),
        quantity: "1".to_string(),
        reference_type: reference.map(|r| r.to_string()),
        reference_id: None,
        unit_price: None,
        total_price: None,
        tax_id: 3,
        tax: None,
        movement_date: input_time(),
        created_by_id: 4,
        created_by: "U".to_string(),
        created_at: input_time(),
    };
    let p = InventoryMovementsResolvedPrint::from_inventory_movements_resolved(
        movement("out", Some("orders")),
        ZONE,
    )
    .unwrap();
    assert_eq!(p.movement_type, "Kiadás");
    assert_eq!(p.reference_type, Some("Ismeretlen referencia típus".to_string()));
    let p = InventoryMovementsResolvedPrint::from_inventory_movements_resolved(
        movement("swap", None),
        ZONE,
    )
    .unwrap();
    assert_eq!(p.movement_type, "Ismeretlen művelet");
    assert_eq!(p.reference_type, None);
}

#[test]
fn test_from_inventory_reservation_resolved() {
    let inventory_reservation_id = new_id();
    let inventory_id = new_id();
    let reference_id = Some(new_id());
    let created_by_id = new_id();
    let inventory_resolved_print = InventoryResolvedPrint::from_inventory_resolved(
        inventory_resolved(inventory_id, new_id(), new_id(), new_id()),
        ZONE,
    )
    .unwrap();
    let at = OffsetTimestamp {
        at: input_time(),
        offset_secs: 3600,
    };
    let inventory_reservation_resolved = InventoryReservationResolved {
        id: inventory_reservation_id,
        inventory_id,
        quantity: "10".to_string(),
        reference_type: Some("worksheets".to_string()),
        reference_id,
        reserved_until: Some(at),
        status: "active".to_string(),
        created_by_id,
        created_by: "Test User".to_string(),
        created_at: at,
        updated_at: at,
    };
    let inventory_resevation_resolved_print = InventoryReservationResolvedPrint::new(
        inventory_reservation_resolved,
        inventory_resolved_print.clone(),
        ZONE,
    )
    .unwrap();
    let inventory_resevation_resolved_print_expected = InventoryReservationResolvedPrint {
        id: inventory_reservation_id,
        inventory: inventory_resolved_print,
        quantity: "10".to_string(),
        reference_type: Some("Munkalap".to_string()),
        reference_id,
        reserved_until: Some(PRINTED.to_string()),
        status: "Aktív".to_string(),
        created_by_id,
        created_by: "Test User".to_string(),
        created_at: PRINTED.to_string(),
        updated_at: PRINTED.to_string(),
    };
    assert_eq!(
        inventory_resevation_resolved_print,
        inventory_resevation_resolved_print_expected
    );
}

#[test]
fn reservation_print_status_labels() {
    let at = OffsetTimestamp {
        at: input_time(),
        offset_secs: 0,
    };
    let inventory = InventoryResolvedPrint::from_inventory_resolved(inventory_resolved(1, 2, 3, 4), ZONE)
        .unwrap();
    for (status, label) in [
        ("fulfilled", "Teljesített"),
        ("cancelled", "Lemondott"),
        ("expired", "Lejárt"),
        ("x", "Ismeretlen státusz"),
    ] {
        let v = InventoryReservationResolved {
            id: 1,
            inventory_id: 2,
            quantity: "1".to_string(),
            reference_type: None,
            reference_id: None,
            reserved_until: None,
            status: status.to_string(),
            created_by_id: 3,
            created_by: "U".to_string(),
            created_at: at,
            updated_at: at,
        };
        let p = InventoryReservationResolvedPrint::new(v, inventory.clone(), ZONE).unwrap();
        assert_eq!(p.status, label);
        assert_eq!(p.reserved_until, None);
    }
}

#[test]
fn inventory_reservations_resolved_into_index_map() {
    let id = uuid::Uuid::new_v4();
    let inventory_id = uuid::Uuid::new_v4();
    let reference_id = uuid::Uuid::new_v4();
    let created_by_id = uuid::Uuid::new_v4();
    let date_test = Local::now();
    let mut expected = IndexMap::new();

    expected.insert("id".to_string(), id.to_string());
    expected.insert("inventory_id".to_string(), inventory_id.to_string());
    expected.insert("quantity".to_string(), "10".to_string());
    expected.insert("reference_type".to_string(), "test1".to_string());
    expected.insert("reference_id".to_string(), reference_id.to_string());
    expected.insert("reserved_until".to_string(), date_test.to_rfc3339());
    expected.insert("status".to_string(), "test2".to_string());
    expected.insert("created_by_id".to_string(), created_by_id.to_string());
    expected.insert("created_by".to_string(), "test3".to_string());
    expected.insert("created_at".to_string(), date_test.to_rfc3339());
    expected.insert("updated_at".to_string(), date_test.to_rfc3339());

    let input: IndexMap<String, String> = InventoryReservationResolved {
        id: id.as_u128(),
        inventory_id: inventory_id.as_u128(),
        quantity: "10".to_string(),
        reference_type: Some("test1".to_string()),
        reference_id: Some(reference_id.as_u128()),
        reserved_until: Some(offset_time(date_test)),
        status: "test2".to_string(),
        created_by_id: created_by_id.as_u128(),
        created_by: "test3".to_string(),
        created_at: offset_time(date_test),
        updated_at: offset_time(date_test),
    }
    .into_index_map()
    .unwrap();

    assert_eq!(input, expected);
    let keys: Vec<&String> = input.keys().collect();
    let expected_keys: Vec<&String> = expected.keys().collect();
    assert_eq!(keys, expected_keys);
}

#[test]
fn index_map_leaves_missing_values_empty() {
    let at = OffsetTimestamp {
        at: input_time(),
        offset_secs: 3600,
    };
    let map = InventoryReservationResolved {
        id: 0x67e5504410b1426f9247bb680e5fe0c8,
        inventory_id: 0,
        quantity: "2.5".to_string(),
        reference_type: None,
        reference_id: None,
        reserved_until: None,
        status: "active".to_string(),
        created_by_id: 1,
        created_by: "U".to_string(),
        created_at: at,
        updated_at: at,
    }
    .into_index_map()
    .unwrap();
    assert_eq!(map["id"], "67e55044-10b1-426f-9247-bb680e5fe0c8");
    assert_eq!(map["inventory_id"], "00000000-0000-0000-0000-000000000000");
    assert_eq!(map["reference_type"], "");
    assert_eq!(map["reference_id"], "");
    assert_eq!(map["reserved_until"], "");
    assert_eq!(map["created_at"], "2026-01-01T02:00:00+01:00");
    assert_eq!(map.len(), 11);
}

#[test]
fn test_from_product_resolved() {
    let product_id = new_id();
    let unit_of_measure_id = new_id();
    let created_by_id = new_id();
    let product_resolved = ProductResolved {
        id: product_id,
        name: "Test product".to_string(),
        description: None,
        unit_of_measure_id,
        unit_of_measure: "cm".to_string(),
        status: "active".to_string(),
        created_by_id,
        created_by: "Test User".to_string(),
        created_at: input_time(),
        updated_at: input_time(),
        deleted_at: None,
    };
    let product_resolved_print =
        ProductsResolvedPrint::from_product_resolved(product_resolved, ZONE).unwrap();
    let product_resolved_print_expected = ProductsResolvedPrint {
        id: product_id,
        name: "Test product".to_string(),
        description: None,
        unit_of_measure_id,
        unit_of_measure: "cm".to_string(),
        status: "Aktív".to_string(),
        created_by_id,
        created_by: "Test User".to_string(),
        created_at: PRINTED.to_string(),
        updated_at: PRINTED.to_string(),
        deleted_at: None,
    };
    assert_eq!(product_resolved_print, product_resolved_print_expected);
}

#[test]
fn test_from_service_resolved() {
    let service_id = new_id();
    let created_by_id = new_id();
    let default_tax_id = Some(new_id());
    let service_resolved = ServiceResolved {
        id: service_id,
        name: "Test service".to_string(),
        description: Some("Test description".to_string()),
        default_price: Some("10".to_string()),
        default_tax_id,
        default_tax: Some("Test tax".to_string()),
        currency_code: Some("HUF".to_string()),
        status: "active".to_string(),
        created_by_id,
        created_by: "Test User".to_string(),
        created_at: input_time(),
        updated_at: input_time(),
        deleted_at: None,
    };
    let service_resolved_print =
        ServicesResolvedPrint::from_service_resolved(service_resolved, ZONE).unwrap();
    let service_resolved_print_expected = ServicesResolvedPrint {
        id: service_id,
        name: "Test service".to_string(),
        description: Some("Test description".to_string()),
        default_price: Some("10".to_string()),
        default_tax_id,
        default_tax: Some("Test tax".to_string()),
        currency_code: Some("HUF".to_string()),
        status: "Aktív".to_string(),
        created_by_id,
        created_by: "Test User".to_string(),
        created_at: PRINTED.to_string(),
        updated_at: PRINTED.to_string(),
        deleted_at: None,
    };
    assert_eq!(service_resolved_print, service_resolved_print_expected);
}

#[test]
fn service_print_inactive_status() {
    let v = ServiceResolved {
        id: 1,
        name: "S".to_string(),
        description: None,
        default_price: None,
        default_tax_id: None,
        default_tax: None,
        currency_code: None,
        status: "inactive".to_string(),
        created_by_id: 2,
        created_by: "U".to_string(),
        created_at: input_time(),
        updated_at: input_time(),
        deleted_at: None,
    };
    let p = ServicesResolvedPrint::from_service_resolved(v, ZONE).unwrap();
    assert_eq!(p.status, "Inaktív");
}

#[test]
fn print_times() {
    assert_eq!(print_format_for("UTC"), "%Y. %m. %d. %H:%M:%S (UTC)");
    assert_eq!(print_time(input_time(), ZONE), Some(PRINTED.to_string()));
    let summer = Timestamp {
        secs: input_time().secs + 181 * 86_400,
        nanos: 0,
    };
    assert_eq!(
        print_time(summer, ZONE),
        Some("2026. 07. 01. 03:00:00 (Europe/Budapest)".to_string())
    );
    assert_eq!(print_time(input_time(), "Nowhere/Town"), None);
    let t = OffsetTimestamp {
        at: input_time(),
        offset_secs: -7200,
    };
    assert_eq!(rfc3339(t), Some("2025-12-31T23:00:00-02:00".to_string()));
    let bad = OffsetTimestamp {
        at: input_time(),
        offset_secs: 90_000,
    };
    assert_eq!(rfc3339(bad), None);
}
