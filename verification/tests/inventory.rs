use std::str::FromStr;

use obvia::common::service::ServiceError;
use obvia::common::types::{CurrencyCode, Integer32, UuidVO};
use obvia::common::value_object::{ValueObjectData, ValueObjectError, ValueObjectRequired};
use obvia::tenant::inventory::dto::{InventoryUserInput, InventoryUserInputHelper};
use obvia::tenant::inventory::service::InventorySelectLists;
use obvia::tenant::inventory::types::{InventoryStatus, OrderBy, Status};
use obvia::tenant::inventory_reservations::types::Status as ReservationStatus;
use obvia::tenant::products::types::OrderBy as ProductOrderBy;

fn order_by_from_json(json: &str) -> Result<OrderBy, String> {
    let text: String = serde_json::from_str(json).map_err(|e| e.to_string())?;
    let order_by = OrderBy(text);
    order_by.validate()?;
    Ok(order_by)
}

fn product_order_by_from_json(json: &str) -> Result<ProductOrderBy, String> {
    let text: String = serde_json::from_str(json).map_err(|e| e.to_string())?;
    let order_by = ProductOrderBy(text);
    order_by.validate()?;
    Ok(order_by)
}

#[test]
fn valid_inventory_user_input() {
    let product_id = uuid::Uuid::new_v4();
    let warehouse_id = uuid::Uuid::new_v4();
    let iui = InventoryUserInput::try_from(InventoryUserInputHelper {
        id: None,
        product_id: product_id.to_string(),
        warehouse_id: warehouse_id.to_string(),
        minimum_stock: String::from("10"),
        maximum_stock: String::from("100"),
        currency_code: String::from("HUF"),
        status: String::from("active"),
    })
    .unwrap();

    assert_eq!(iui.product_id.as_uuid().unwrap(), product_id.as_u128());
    assert_eq!(iui.warehouse_id.as_uuid().unwrap(), warehouse_id.as_u128());
    assert_eq!(iui.minimum_stock.as_i32().unwrap(), 10_i32);
    assert_eq!(iui.maximum_stock.as_i32().unwrap(), 100_i32);
    assert_eq!(iui.currency_code.as_str().unwrap(), "HUF");
    assert_eq!(iui.status.as_str().unwrap(), "active");
}

#[test]
fn invalid_inventory_user_input() {
    let iui = InventoryUserInput::try_from(InventoryUserInputHelper {
        id: None,
        product_id: String::from(""),
        warehouse_id: String::from("asd"),
        minimum_stock: String::from("1a"),
        maximum_stock: String::from("aaa"),
        currency_code: String::from("HUFF"),
        status: String::from("activee"),
    })
    .unwrap_err();

    assert_eq!(iui.product_id.unwrap(), ValueObjectError::REQUIRED);
    assert_eq!(iui.warehouse_id.unwrap(), UuidVO::PARSE_ERROR);
    assert_eq!(iui.minimum_stock.unwrap(), Integer32::PARSE_ERROR);
    assert_eq!(iui.maximum_stock.unwrap(), Integer32::PARSE_ERROR);
    assert_eq!(iui.currency_code.unwrap(), CurrencyCode::VALIDATION_ERROR);
    assert_eq!(iui.status.unwrap(), InventoryStatus::VALIDATION_ERROR);
}

#[test]
fn order_by_test_valid_order_by() {
    let order_by = order_by_from_json(r#""product_id""#).unwrap();
    assert_eq!(order_by.get_value(), "product_id");

    let order_by = product_order_by_from_json(r#""name""#).unwrap();
    assert_eq!(order_by.get_value(), "name");
}

#[test]
fn order_by_test_invalid_order_by() {
    let cases = vec![
        r#""name""#,
        r#""price""#,
        r#""quantity""#,
        r#""invalid_column""#,
    ];
    for case in cases {
        assert!(order_by_from_json(case).is_err());
    }

    let cases = vec![r#""id""#, r#""description""#];
    for case in cases {
        assert!(product_order_by_from_json(case).is_err());
    }
}

#[test]
fn test_from_str() {
    let order_by = OrderBy::from_str("product_id").unwrap();
    assert_eq!(order_by.get_value(), "product_id");
}

#[test]
fn order_by_test_display() {
    let order_by = OrderBy("product_id".to_string());
    assert_eq!(order_by.to_string(), "product_id");
}

#[test]
fn order_by_test_get_value() {
    let order_by = OrderBy("product_id".to_string());
    assert_eq!(order_by.get_value(), "product_id");

    let order_by = ProductOrderBy("name".to_string());
    assert_eq!(order_by.get_value(), "name");
}

#[test]
fn order_by_test_validation() {
    assert!(OrderBy("product_id".to_string()).validate().is_ok());
    assert!(OrderBy("name".to_string()).validate().is_err());
    assert!(OrderBy("price".to_string()).validate().is_err());
    assert!(OrderBy("quantity".to_string()).validate().is_err());
    assert!(OrderBy("invalid_column".to_string()).validate().is_err());

    let valid = ProductOrderBy("name".to_string());
    let invalid = ProductOrderBy("invalid".to_string());
    assert!(valid.validate().is_ok());
    assert!(invalid.validate().is_err());
}

#[test]
fn test_valid_status_values() {
    let valid_statuses = vec!["active", "inactive", "discontinued"];

    for status_str in valid_statuses {
        let status = Status(status_str.to_string());
        assert!(
            status.validate().is_ok(),
            "Status '{}' should be valid",
            status_str
        );
    }
}

#[test]
fn test_invalid_status_values() {
    let invalid_statuses = vec!["pending", "deleted", "archived", "", "ACTIVE", "INACTIVE"];

    for status_str in invalid_statuses {
        let status = Status(status_str.to_string());
        assert!(
            status.validate().is_err(),
            "Status '{}' should be invalid",
            status_str
        );
    }
}

fn status_from_json(json: &str) -> Result<ValueObjectRequired<Status>, String> {
    let text: String = serde_json::from_str(json).map_err(|e| e.to_string())?;
    ValueObjectRequired::<Status>::parse(&text).map_err(|e| e.to_string())
}

#[test]
fn test_status_deserialization_valid() {
    let valid_cases = vec![r#""active""#, r#""inactive""#, r#""discontinued""#];

    for case in valid_cases {
        let status = status_from_json(case);
        assert!(
            status.is_ok(),
            "Failed to deserialize valid status: {}",
            case
        );
        if let Ok(status) = status {
            assert!(status.extract().validate().is_ok());
        }
    }
}

#[test]
fn test_status_deserialization_invalid() {
    let invalid_cases = vec![
        r#""pending""#,
        r#""ACTIVE""#,
        r#""deleted""#,
        r#""""#,
        r#"null"#,
    ];

    for case in invalid_cases {
        let status = status_from_json(case);
        assert!(
            status.is_err(),
            "Should fail to deserialize invalid status: {}",
            case
        );
    }
}

#[test]
fn test_status_display() {
    let test_cases = vec![
        ("active", "active"),
        ("inactive", "inactive"),
        ("discontinued", "discontinued"),
    ];

    for (input, expected) in test_cases {
        let status = Status(input.to_string());
        assert_eq!(status.to_string(), expected);
    }
}

#[test]
fn status_test_get_value() {
    let status = Status("active".to_string());
    assert_eq!(status.get_value(), "active");

    let status = Status("inactive".to_string());
    assert_eq!(status.get_value(), "inactive");

    let status = Status("discontinued".to_string());
    assert_eq!(status.get_value(), "discontinued");

    let status = ReservationStatus("active".to_string());
    assert_eq!(status.get_value(), &"active".to_string());
}

#[test]
fn status_test_clone() {
    let first = Status("active".to_string());
    let cloned = first.clone();

    assert_eq!(first, cloned);
    assert_eq!(first.get_value(), cloned.get_value());

    let status = ReservationStatus("active".to_string());
    let cloned = status.clone();
    assert_eq!(status, cloned);
}

#[test]
fn status_test_partial_eq() {
    let status1 = Status("active".to_string());
    let status2 = Status("active".to_string());
    let status3 = Status("inactive".to_string());

    assert_eq!(status1, status2);
    assert_ne!(status1, status3);
}

#[test]
fn status_test_debug_output() {
    let status = Status("active".to_string());
    assert_eq!(format!("{:?}", status), r#"Status("active")"#);
}

#[test]
fn inventory_status_is_trimmed_and_messages_unknown() {
    let status = ValueObjectRequired::<Status>::parse("  discontinued ").unwrap();
    assert_eq!(status.as_str().unwrap(), "discontinued");
    assert_eq!(
        ValueObjectRequired::<Status>::parse("sold").unwrap_err(),
        ValueObjectError::InvalidInput(Status::VALIDATION_ERROR)
    );
}

#[test]
fn inventory_order_by_error_message() {
    let result = OrderBy("price".to_string()).validate();
    assert_eq!(result.unwrap_err(), OrderBy::VALIDATION_ERROR);
    assert!(OrderBy(" product_id ".to_string()).validate().is_ok());
}

#[test]
fn inventory_select_lists() {
    assert_eq!(
        InventorySelectLists::parse("products"),
        Ok(InventorySelectLists::Products)
    );
    assert_eq!(
        "currencies".parse::<InventorySelectLists>(),
        Ok(InventorySelectLists::Currencies)
    );
    assert_eq!(
        InventorySelectLists::parse("warehouses"),
        Ok(InventorySelectLists::Warehouses)
    );
    assert_eq!(InventorySelectLists::parse("taxes"), Ok(InventorySelectLists::Taxes));
    assert_eq!(
        InventorySelectLists::parse("Taxes"),
        Err(ServiceError::InvalidSelectList)
    );
}

#[test]
fn inventory_form_with_blank_optional_stock_levels() {
    let product_id = uuid::Uuid::new_v4();
    let warehouse_id = uuid::Uuid::new_v4();
    let iui = InventoryUserInput::from_helper(InventoryUserInputHelper {
        id: Some(String::from("")),
        product_id: product_id.to_string(),
        warehouse_id: warehouse_id.to_string(),
        minimum_stock: String::from(""),
        maximum_stock: String::from(" "),
        currency_code: String::from("EUR"),
        status: String::from("inactive"),
    })
    .unwrap();
    assert_eq!(iui.minimum_stock.as_i32(), None);
    assert_eq!(iui.maximum_stock.as_i32(), None);
    assert_eq!(iui.id.as_uuid(), None);
}

#[test]
fn inventory_form_with_negative_and_overflowing_stock() {
    let iui = InventoryUserInput::from_helper(InventoryUserInputHelper {
        id: None,
        product_id: uuid::Uuid::new_v4().to_string(),
        warehouse_id: uuid::Uuid::new_v4().to_string(),
        minimum_stock: String::from("-5"),
        maximum_stock: String::from("2147483648"),
        currency_code: String::from("huf"),
        status: String::from("active"),
    })
    .unwrap_err();
    assert!(!iui.is_empty());
    assert_eq!(iui.minimum_stock, None);
    assert_eq!(iui.maximum_stock.unwrap(), Integer32::PARSE_ERROR);
    assert_eq!(iui.currency_code.unwrap(), CurrencyCode::VALIDATION_ERROR);
}
