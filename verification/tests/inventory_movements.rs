use obvia::common::types::{Float64, Quantity, UuidVO};
use obvia::common::value_object::{ValueObjectError, ValueObjectRequired};
use obvia::tenant::inventory_movements::dto::{
    InventoryMovementUserInput, InventoryMovementUserInputHelper,
};
use obvia::tenant::inventory_movements::service::{
    InventoryMovementsSelectLists, InventoryMovementsServiceError,
};
use obvia::tenant::inventory_movements::types::{InventoryReferenceType, MovementType};

#[test]
fn test_valid() {
    let movement_type = "in".parse::<ValueObjectRequired<MovementType>>().unwrap();
    assert_eq!(movement_type.as_str().unwrap(), "in");
}

#[test]
fn test_invalid() {
    let movement_type = "invalid".parse::<ValueObjectRequired<MovementType>>();
    assert!(movement_type.is_err());
}

#[test]
fn movement_type_out_is_trimmed() {
    let movement_type = ValueObjectRequired::<MovementType>::parse(" out ").unwrap();
    assert_eq!(movement_type.as_str().unwrap(), "out");
    assert_eq!(
        ValueObjectRequired::<MovementType>::parse("").unwrap_err(),
        ValueObjectError::Required
    );
    assert_eq!(
        ValueObjectRequired::<MovementType>::parse("IN").unwrap_err(),
        ValueObjectError::InvalidInput(MovementType::VALIDATION_ERROR)
    );
}

fn helper(reference_type: &str, reference_id: &str) -> InventoryMovementUserInputHelper {
    InventoryMovementUserInputHelper {
        id: None,
        inventory_id: uuid::Uuid::new_v4().to_string(),
        movement_type: String::from("in"),
        quantity: String::from("10"),
        reference_type: String::from(reference_type),
        reference_id: String::from(reference_id),
        unit_price: String::from("20.5"),
        total_price: String::from("205"),
        tax_id: uuid::Uuid::new_v4().to_string(),
    }
}

#[test]
fn movement_form_reads_reference_type_only_with_a_reference() {
    let input = InventoryMovementUserInput::from_helper(helper("anything", "")).unwrap();
    assert_eq!(input.reference_type, None);
    assert!(!input.reference_id.is_present());

    let reference = uuid::Uuid::new_v4().to_string();
    let input = InventoryMovementUserInput::from_helper(helper("worksheets", &reference)).unwrap();
    assert_eq!(
        input.reference_type.unwrap().as_str().unwrap(),
        "worksheets"
    );
    assert_eq!(input.reference_id.as_uuid(), Some(uuid::Uuid::parse_str(&reference).unwrap().as_u128()));

    let error = InventoryMovementUserInput::from_helper(helper("orders", &reference)).unwrap_err();
    assert_eq!(
        error.reference_type,
        Some(InventoryReferenceType::VALIDATION_ERROR.to_string())
    );
    let error = InventoryMovementUserInput::from_helper(helper("", &reference)).unwrap_err();
    assert_eq!(error.reference_type, Some(ValueObjectError::REQUIRED.to_string()));
}

#[test]
fn movement_form_reports_every_field() {
    let error = InventoryMovementUserInput::try_from(InventoryMovementUserInputHelper {
        id: Some(String::from("x")),
        inventory_id: String::from(""),
        movement_type: String::from("sideways"),
        quantity: String::from("0"),
        reference_type: String::from(""),
        reference_id: String::from("nope"),
        unit_price: String::from("1,5"),
        total_price: String::from("abc"),
        tax_id: String::from(""),
    })
    .unwrap_err();
    assert_eq!(error.id, Some(UuidVO::PARSE_ERROR.to_string()));
    assert_eq!(error.inventory_id, Some(ValueObjectError::REQUIRED.to_string()));
    assert_eq!(error.movement_type, Some(MovementType::VALIDATION_ERROR.to_string()));
    assert_eq!(error.quantity, Some(Quantity::VALIDATION_ERROR.to_string()));
    assert_eq!(error.reference_type, None);
    assert_eq!(error.reference_id, Some(UuidVO::PARSE_ERROR.to_string()));
    assert_eq!(error.unit_price, Some(Float64::PARSE_ERROR.to_string()));
    assert_eq!(error.total_price, Some(Float64::PARSE_ERROR.to_string()));
    assert_eq!(error.tax_id, Some(ValueObjectError::REQUIRED.to_string()));
    assert!(!error.is_empty());
}

#[test]
fn movement_select_lists() {
    assert_eq!(
        InventoryMovementsSelectLists::parse("worksheets"),
        Ok(InventoryMovementsSelectLists::Worksheets)
    );
    assert_eq!(
        InventoryMovementsSelectLists::parse("taxes"),
        Ok(InventoryMovementsSelectLists::Taxes)
    );
    assert_eq!(
        "inventory".parse::<InventoryMovementsSelectLists>(),
        Ok(InventoryMovementsSelectLists::Inventory)
    );
    assert_eq!(
        InventoryMovementsSelectLists::parse("products"),
        Err(InventoryMovementsServiceError::InvalidSelectList)
    );
}

#[test]
fn outgoing_movements_are_stored_negated() {
    let mut h = helper("", "");
    h.movement_type = String::from(" out ");
    let out = InventoryMovementUserInput::from_helper(h).unwrap();
    assert!(out.takes_stock_out());
    let incoming = InventoryMovementUserInput::from_helper(helper("", "")).unwrap();
    assert!(!incoming.takes_stock_out());
}
