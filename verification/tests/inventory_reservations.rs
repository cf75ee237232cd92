use chrono::{Datelike, Days, Local};
use obvia::common::value_object::{ValueObjectData, ValueObjectError, ValueObjectRequired};
use obvia::tenant::inventory_reservations::dto::{
    InventoryReservationUserInput, InventoryReservationUserInputHelper,
};
use obvia::tenant::inventory_reservations::service::InventoryReservationsSelectLists;
use obvia::tenant::inventory_reservations::types::{later_day, ReservedUntil, Status};
use obvia::common::service::ServiceError;

fn day_text(offset_days: i64) -> String {
    let now = Local::now();
    let day = if offset_days >= 0 {
        now.checked_add_days(Days::new(offset_days as u64)).unwrap()
    } else {
        now.checked_sub_days(Days::new((-offset_days) as u64)).unwrap()
    };
    day.date_naive().to_string()
}

#[test]
fn test_tomorrow() {
    let valid_date = day_text(1);
    assert!(ReservedUntil::parse_required(&valid_date).is_ok());
}

#[test]
fn test_today() {
    let valid_date = day_text(0);
    assert!(ReservedUntil::parse_required(&valid_date).is_err());
}

#[test]
fn test_yesterday() {
    let valid_date = day_text(-1);
    assert!(ReservedUntil::parse_required(&valid_date).is_err());
}

#[test]
fn test_invalid_due_date_formats() {
    let cases = vec![
        r#""2024/01/01""#,
        r#""2024.01.01""#,
        r#""01-01-2024""#,
        r#""2024-13-01""#,
        r#""2024-01-32""#,
        r#""2024-00-01""#,
        r#""2024-01-00""#,
        r#""abc""#,
        r#""""#,
        r#""    ""#,
    ];

    for case in cases {
        let text: String = serde_json::from_str(case).unwrap();
        let due_date = ReservedUntil::parse_required(&text);
        assert!(due_date.is_err());
    }
}

#[test]
fn reserved_until_test_display() {
    let due_date = ReservedUntil("2024-01-01".to_string());
    assert_eq!(due_date.to_string(), "2024-01-01");
}

#[test]
fn reserved_until_test_get_value() {
    let due_date = ReservedUntil("2024-01-01".to_string());
    assert_eq!(due_date.get_value(), "2024-01-01");
}

#[test]
fn reserved_until_judged_against_a_given_today() {
    let today = (2024, 1, 1);
    assert_eq!(ReservedUntil("2024-01-02".to_string()).validate_on(today), Ok(()));
    assert_eq!(
        ReservedUntil("2024-01-01".to_string()).validate_on(today),
        Err(ValueObjectError::InvalidInput(ReservedUntil::NOT_LATER_ERROR))
    );
    assert_eq!(
        ReservedUntil("2023-12-31".to_string()).validate_on(today),
        Err(ValueObjectError::InvalidInput(ReservedUntil::NOT_LATER_ERROR))
    );
    assert_eq!(
        ReservedUntil("2024-02-30".to_string()).validate_on(today),
        Err(ValueObjectError::InvalidInput(ReservedUntil::FORMAT_ERROR))
    );
    assert_eq!(
        ReservedUntil(" 2025-06-15 ".to_string()).validate_on(today),
        Ok(())
    );
    assert_eq!(
        ReservedUntil::parse_required_on("   ", today),
        Err(ValueObjectError::Required)
    );
}

#[test]
fn reserved_until_reads_the_calendar_date() {
    assert_eq!(
        ReservedUntil("2024-03-09".to_string()).date_naive(),
        Ok((2024, 3, 9))
    );
    assert_eq!(
        ReservedUntil("2024-3-9x".to_string()).date_naive(),
        Err(ValueObjectError::InvalidInput(ReservedUntil::FORMAT_ERROR))
    );
}

#[test]
fn later_day_orders_by_year_month_day() {
    assert!(later_day((2024, 1, 2), (2024, 1, 1)));
    assert!(later_day((2024, 2, 1), (2024, 1, 31)));
    assert!(later_day((2025, 1, 1), (2024, 12, 31)));
    assert!(!later_day((2024, 1, 1), (2024, 1, 1)));
    assert!(!later_day((2023, 12, 31), (2024, 1, 1)));
}

#[test]
fn reservation_validate_uses_the_clock() {
    let tomorrow = day_text(1);
    assert_eq!(ReservedUntil(tomorrow).validate(), Ok(()));
    let now = Local::now().date_naive();
    let today = (now.year(), now.month(), now.day());
    assert_eq!(
        ReservedUntil(day_text(0)).validate_on(today),
        Err(ValueObjectError::InvalidInput(ReservedUntil::NOT_LATER_ERROR))
    );
}

#[test]
fn test_validate_valid_status() {
    let valid_statuses = vec!["active", "fulfilled", "cancelled", "expired"];

    for status in valid_statuses {
        let status = Status(status.to_string());
        assert_eq!(status.validate(), Ok(()));
    }
}

#[test]
fn test_validate_invalid_status() {
    let invalid_status = Status("invalid".to_string());
    assert_eq!(
        invalid_status.validate(),
        Err(ValueObjectError::InvalidInput("Hibás foglalás státusz"))
    );
}

#[test]
fn status_test_display() {
    let status = Status("active".to_string());
    assert_eq!(status.to_string(), "active");
}

#[test]
fn test_deserialize_valid_status() {
    let json: String = serde_json::from_str(r#""active""#).unwrap();
    let status = ValueObjectRequired::<Status>::parse(&json).unwrap();
    assert_eq!(status.as_str().unwrap(), "active");
}

#[test]
fn test_deserialize_invalid_status() {
    let json: String = serde_json::from_str(r#""invalid""#).unwrap();
    let result = ValueObjectRequired::<Status>::parse(&json);
    assert!(result.is_err());
}

fn reservation(reserved_until: &str) -> InventoryReservationUserInputHelper {
    InventoryReservationUserInputHelper {
        id: None,
        inventory_id: uuid::Uuid::new_v4().to_string(),
        quantity: String::from("3"),
        reference_type: String::from("worksheets"),
        reference_id: uuid::Uuid::new_v4().to_string(),
        reserved_until: String::from(reserved_until),
        status: String::from("active"),
    }
}

#[test]
fn reservation_form_on_a_given_today() {
    let today = (2024, 5, 10);
    let input = InventoryReservationUserInput::from_helper_on(reservation("2024-05-11"), today)
        .unwrap();
    assert_eq!(input.reserved_until.get_value(), "2024-05-11");
    assert_eq!(input.reference_type.as_str(), Some("worksheets"));

    let error = InventoryReservationUserInput::from_helper_on(reservation("2024-05-10"), today)
        .unwrap_err();
    assert_eq!(
        error.reserved_until,
        Some(ReservedUntil::NOT_LATER_ERROR.to_string())
    );
    assert_eq!(error.quantity, None);
    assert!(!error.is_empty());
}

#[test]
fn reservation_form_on_the_clock() {
    let input = InventoryReservationUserInput::try_from(reservation(&day_text(2)));
    assert!(input.is_ok());
    let error = InventoryReservationUserInput::try_from(reservation(&day_text(-2))).unwrap_err();
    assert_eq!(
        error.reserved_until,
        Some(ReservedUntil::NOT_LATER_ERROR.to_string())
    );
}

#[test]
fn reservation_select_lists() {
    assert_eq!(
        InventoryReservationsSelectLists::parse("worksheets"),
        Ok(InventoryReservationsSelectLists::Worksheets)
    );
    assert_eq!(
        "inventory".parse::<InventoryReservationsSelectLists>(),
        Ok(InventoryReservationsSelectLists::Inventory)
    );
    assert_eq!(
        InventoryReservationsSelectLists::parse("taxes"),
        Err(ServiceError::InvalidSelectList)
    );
}
