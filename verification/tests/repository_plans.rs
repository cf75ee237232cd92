use obvia::tenant::inventory::types::OrderBy as InventoryOrderBy;
use obvia::tenant::products::types::OrderBy as ProductOrderBy;
use obvia::common::paging::{order_by_clause, page_window, PageWindow, PaginatorMeta, DEFAULT_LIMIT};
use obvia::tenant::customers::repository::{lock_clause, BILLING_ADDRESS_MISMATCH, MAILING_ADDRESS_MISMATCH};
use obvia::tenant::inventory::repository::filter_column;
use obvia::tenant::inventory_movements::dto::InventoryMovementsRawQuery;
use obvia::tenant::inventory_reservations::dto::InventoryReservationsRawQuery;
use obvia::tenant::services::module::ServicesModuleBuilder;

#[test]
fn default_page_window() {
    assert_eq!(
        page_window(None, None, None),
        Some(PageWindow {
            limit: 25,
            offset: 0,
            page: 1
        })
    );
    assert_eq!(DEFAULT_LIMIT, 25);
}

#[test]
fn page_window_takes_the_request() {
    assert_eq!(
        page_window(Some(50), Some(100), Some(3)),
        Some(PageWindow {
            limit: 50,
            offset: 100,
            page: 3
        })
    );
    assert_eq!(
        page_window(Some(2147483647), None, None).map(|w| w.limit),
        Some(i32::MAX)
    );
}

#[test]
fn page_window_refuses_numbers_beyond_i32() {
    assert_eq!(page_window(Some(2147483648), None, None), None);
    assert_eq!(page_window(None, Some(u64::MAX), None), None);
    assert_eq!(page_window(None, None, Some(1 << 40)), None);
}

#[test]
fn paginator_meta_of_a_window() {
    let w = page_window(Some(10), Some(20), Some(3)).unwrap();
    assert_eq!(
        w.meta(57),
        PaginatorMeta {
            page: 3,
            limit: 10,
            total: 57
        }
    );
}

#[test]
fn order_by_clauses() {
    assert_eq!(
        order_by_clause("customers", Some("name"), Some("ASC")),
        "ORDER BY customers.name ASC"
    );
    assert_eq!(
        order_by_clause("inventory", Some("product_id"), Some("DESC")),
        "ORDER BY inventory.product_id DESC"
    );
    assert_eq!(order_by_clause("customers", Some("name"), None), "");
    assert_eq!(order_by_clause("customers", None, Some("ASC")), "");
}

#[test]
fn inventory_filter_columns() {
    assert_eq!(filter_column("product"), Some("products.name"));
    assert_eq!(filter_column("warehouse"), None);
    assert_eq!(filter_column("Product"), None);
}

#[test]
fn customer_lock_clause() {
    assert_eq!(lock_clause(true), "FOR UPDATE OF customers");
    assert_eq!(lock_clause(false), "");
    assert!(BILLING_ADDRESS_MISMATCH.contains("billing_address"));
    assert!(MAILING_ADDRESS_MISMATCH.contains("mailing_address"));
}

#[test]
fn raw_queries() {
    let q = InventoryMovementsRawQuery::new(7, Some("csavar".to_string()));
    assert_eq!(q.inventory_id(), 7);
    assert_eq!(q.q(), "csavar");
    let q = InventoryReservationsRawQuery::new(8, None);
    assert_eq!(q.inventory_id(), 8);
    assert_eq!(q.q(), "");
}

#[test]
fn services_module_builder_names_the_first_missing_part() {
    let empty: ServicesModuleBuilder<&str, u8, u16, u32> = ServicesModuleBuilder::new();
    assert_eq!(empty.build().err(), Some("config is required".to_string()));

    let partial: ServicesModuleBuilder<&str, u8, u16, u32> = ServicesModuleBuilder::default()
        .config("cfg")
        .currencies_repo(2);
    assert_eq!(
        partial.build().err(),
        Some("services_repo is required".to_string())
    );

    let no_taxes: ServicesModuleBuilder<&str, u8, u16, u32> = ServicesModuleBuilder::new()
        .config("cfg")
        .services_repo(1)
        .currencies_repo(2);
    assert_eq!(no_taxes.build().err(), Some("taxes_repo is required".to_string()));

    let no_currencies: ServicesModuleBuilder<&str, u8, u16, u32> = ServicesModuleBuilder::new()
        .config("cfg")
        .services_repo(1)
        .taxes_repo(3);
    assert_eq!(
        no_currencies.build().err(),
        Some("currencies_repo is required".to_string())
    );

    let module = ServicesModuleBuilder::new()
        .taxes_repo(3u32)
        .services_repo(1u8)
        .config("cfg")
        .currencies_repo(2u16)
        .build()
        .ok()
        .unwrap();
    assert_eq!(module.config, "cfg");
    assert_eq!(module.services_repo, 1);
    assert_eq!(module.currencies_repo, 2);
    assert_eq!(module.taxes_repo, 3);
}

#[test]
fn order_by_clause_of_whitelisted_columns() {
    let column: InventoryOrderBy = " product_id".parse().unwrap();
    assert!(column.validate().is_ok());
    assert_eq!(
        order_by_clause("inventory", Some(column.get_value().as_str()), Some("ASC")),
        "ORDER BY inventory. product_id ASC"
    );
    let column: ProductOrderBy = "created_at".parse().unwrap();
    assert!(column.validate().is_ok());
    assert_eq!(
        order_by_clause("products", Some(column.get_value().as_str()), Some("DESC")),
        "ORDER BY products.created_at DESC"
    );
    let refused: ProductOrderBy = "name; DROP TABLE products".parse().unwrap();
    assert!(refused.validate().is_err());
}
