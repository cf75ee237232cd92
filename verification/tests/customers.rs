use obvia::common::types::{Email, UuidVO};
use obvia::common::value_object::{
    ValueObjectData, ValueObjectError, ValueObjectOptional, ValueObjectRequired,
};
use obvia::tenant::address::dto::{AddressUserInput, AddressUserInputError, AddressUserInputHelper};
use obvia::tenant::address::types::CountryCode;
use obvia::tenant::customers::dto::{
    CustomerUserInput, CustomerUserInputError, CustomerUserInputHelper,
};
use obvia::tenant::customers::types::{
    ContactName, CustomerPhoneNumber, CustomerStatus, CustomerType, Name, PhoneNumber,
};
use obvia::tenant::services::types::Name as ServiceName;

#[test]
fn test_valid_contact_name() {
    let name = "John Doe"
        .parse::<ValueObjectRequired<ContactName>>()
        .unwrap();
    assert_eq!(name.as_str().unwrap(), "John Doe");
}

#[test]
fn test_empty_contact_name() {
    let name = "".parse::<ValueObjectRequired<ContactName>>();
    assert!(name.is_err());
}

#[test]
fn test_whitespace_contact_name() {
    let name = "  ".parse::<ValueObjectRequired<ContactName>>();
    assert!(name.is_err());
}

#[test]
fn test_valid_natural_customer_type() {
    let customer_type = "natural"
        .parse::<ValueObjectRequired<CustomerType>>()
        .unwrap();
    assert_eq!(customer_type.as_str().unwrap(), "natural");
}

#[test]
fn test_valid_legal_customer_type() {
    let customer_type = "legal"
        .parse::<ValueObjectRequired<CustomerType>>()
        .unwrap();
    assert_eq!(customer_type.as_str().unwrap(), "legal");
}

#[test]
fn test_invalid_customer_type() {
    let customer_type = "invalid".parse::<ValueObjectRequired<CustomerType>>();
    assert!(customer_type.is_err());
}

#[test]
fn test_empty_customer_type() {
    let customer_type = "".parse::<ValueObjectRequired<CustomerType>>();
    assert!(customer_type.is_err());
}

#[test]
fn name_test_valid_name() {
    let name = "Test Name".parse::<ValueObjectRequired<Name>>().unwrap();
    assert_eq!(name.as_str().unwrap(), "Test Name");

    let json: String = serde_json::from_str(r#""Test Service""#).unwrap();
    let name = ValueObjectRequired::<ServiceName>::parse(&json).unwrap();
    assert_eq!(name.extract().get_value(), "Test Service");
}

#[test]
fn name_test_empty_name() {
    let name = "".parse::<ValueObjectRequired<Name>>();
    assert!(name.is_err());

    let json: String = serde_json::from_str(r#""""#).unwrap();
    let name = ValueObjectRequired::<ServiceName>::parse(&json);
    assert!(name.is_err());
}

#[test]
fn test_whitespace_only_name() {
    let name = "   ".parse::<ValueObjectRequired<Name>>();
    assert!(name.is_err());
}

#[test]
fn test_too_long_name() {
    let long = "a".repeat(256);
    let name = long.parse::<ValueObjectRequired<Name>>();
    assert!(name.is_err());
}

#[test]
fn test_long_name() {
    let long = "a".repeat(255);
    let name = long.parse::<ValueObjectRequired<Name>>();
    assert!(name.is_ok());
}

fn phone_from_json(json: &str) -> Result<ValueObjectRequired<PhoneNumber>, String> {
    let text: String = serde_json::from_str(json).map_err(|e| e.to_string())?;
    ValueObjectRequired::<PhoneNumber>::parse(&text).map_err(|e| e.to_string())
}

#[test]
fn test_valid_phone_number() {
    let phone = phone_from_json(r#""+36301234567""#).unwrap();
    assert_eq!(phone.as_str().unwrap(), "+36301234567");
}

#[test]
fn test_invalid_phone_number_no_plus() {
    let phone = phone_from_json(r#""36301234567""#);
    assert!(phone.is_err());
}

#[test]
fn test_invalid_phone_number_too_short() {
    let phone = phone_from_json(r#""+3612""#);
    assert!(phone.is_err());
}

#[test]
fn test_invalid_phone_number_too_long() {
    let phone = phone_from_json(r#""+361234567890123456""#);
    assert!(phone.is_err());
}

#[test]
fn test_invalid_phone_number_special_chars() {
    let phone = phone_from_json(r#""+36-30-123-4567""#);
    assert!(phone.is_err());
}

#[test]
fn test_invalid_phone_number_letters() {
    let phone = phone_from_json(r#""+36abcd1234""#);
    assert!(phone.is_err());
}

#[test]
fn phone_number_test_display_implementation() {
    let phone = PhoneNumber("+36301234567".to_string());
    assert_eq!(phone.to_string(), "+36301234567");
}

#[test]
fn phone_number_test_clone() {
    let phone = PhoneNumber("+36301234567".to_string());
    let cloned = phone.clone();
    assert_eq!(phone, cloned);
}

#[test]
fn phone_number_test_debug_output() {
    let phone = PhoneNumber("+36301234567".to_string());
    assert_eq!(format!("{:?}", phone), r#"PhoneNumber("+36301234567")"#);
}

#[test]
fn phone_number_test_validation() {
    let valid_phone = PhoneNumber("+36301234567".to_string());
    assert!(valid_phone.validate().is_ok());

    let invalid_phone = PhoneNumber("36301234567".to_string());
    assert!(invalid_phone.validate().is_err());
}

#[test]
fn phone_number_test_get_value() {
    let value = "+36301234567".to_string();
    let phone = PhoneNumber(value.clone());
    assert_eq!(phone.get_value(), &value);
}

#[test]
fn test_deserialization_error_messages() {
    let invalid = phone_from_json(r#""invalid""#);
    assert!(invalid.unwrap_err().contains("formátum"));
}

fn address_helper(country_code: &str) -> AddressUserInputHelper {
    AddressUserInputHelper {
        id: None,
        address_type: String::from("billing"),
        country_code: String::from(country_code),
        postal_code: String::from("1011"),
        settlement: String::from("Budapest"),
        mailbox: String::from(""),
        topographic_number: String::from(""),
        name_of_public_space: String::from("Fő"),
        type_of_public_space: String::from("utca"),
        house_number: String::from("1"),
        building: String::from(""),
        stairway: String::from(""),
        floor: String::from(""),
        door: String::from(""),
    }
}

fn address_input() -> AddressUserInput {
    AddressUserInput {
        id: "".parse().unwrap(),
        address_type: "billing".parse().unwrap(),
        country_code: "HU".parse().unwrap(),
        postal_code: "1011".parse().unwrap(),
        settlement: "Budapest".parse().unwrap(),
        mailbox: "".parse().unwrap(),
        topographic_number: "".parse().unwrap(),
        name_of_public_space: "Fő".parse().unwrap(),
        type_of_public_space: "utca".parse().unwrap(),
        house_number: "1".parse().unwrap(),
        building: "".parse().unwrap(),
        stairway: "".parse().unwrap(),
        floor: "".parse().unwrap(),
        door: "".parse().unwrap(),
    }
}

fn no_address_error() -> AddressUserInputError {
    AddressUserInputError {
        id: None,
        address_type: None,
        country_code: None,
        postal_code: None,
        settlement: None,
        mailbox: None,
        topographic_number: None,
        name_of_public_space: None,
        type_of_public_space: None,
        house_number: None,
        building: None,
        stairway: None,
        floor: None,
        door: None,
    }
}

#[test]
fn valid_customer_user_input_natural() {
    let customer_user_input = CustomerUserInput::try_from(CustomerUserInputHelper {
        id: None,
        name: String::from("Teszt Elek"),
        contact_name: String::from(""),
        email: String::from("teszt.elek@example.com"),
        phone_number: String::from("+36301234567"),
        status: String::from("active"),
        customer_type: String::from("natural"),
        billing_address: Some(address_helper("HU")),
        mailing_address: None,
    });
    let expected_customer_user_input = CustomerUserInput {
        id: "".parse().unwrap(),
        name: "Teszt Elek".parse().unwrap(),
        contact_name: None,
        email: "teszt.elek@example.com".parse().unwrap(),
        phone_number: "+36301234567".parse().unwrap(),
        status: "active".parse().unwrap(),
        customer_type: "natural".parse().unwrap(),
        billing_address: Some(address_input()),
        mailing_address: None,
    };

    assert!(customer_user_input.is_ok());
    assert_eq!(expected_customer_user_input, customer_user_input.unwrap());
}

#[test]
fn valid_customer_user_input_legal() {
    let customer_user_input = CustomerUserInput::try_from(CustomerUserInputHelper {
        id: None,
        name: String::from("Teszt Kft."),
        contact_name: String::from("Teszt Elek"),
        email: String::from("teszt.elek@example.com"),
        phone_number: String::from("+36301234567"),
        status: String::from("active"),
        customer_type: String::from("legal"),
        billing_address: Some(address_helper("HU")),
        mailing_address: None,
    });
    let expected_customer_user_input = CustomerUserInput {
        id: "".parse().unwrap(),
        name: "Teszt Kft.".parse().unwrap(),
        contact_name: Some("Teszt Elek".parse().unwrap()),
        email: "teszt.elek@example.com".parse().unwrap(),
        phone_number: "+36301234567".parse().unwrap(),
        status: "active".parse().unwrap(),
        customer_type: "legal".parse().unwrap(),
        billing_address: Some(address_input()),
        mailing_address: None,
    };
    assert!(customer_user_input.is_ok());
    assert_eq!(expected_customer_user_input, customer_user_input.unwrap());
}

#[test]
fn invalid_customer_user_input_natural() {
    let customer_user_input = CustomerUserInput::try_from(CustomerUserInputHelper {
        id: Some(String::from("asd")),
        name: String::from(""),
        contact_name: String::from(""),
        email: String::from("teszt.elekexample.com"),
        phone_number: String::from("+36@301234567"),
        status: String::from("activee"),
        customer_type: String::from("natural"),
        billing_address: Some(address_helper("HUN")),
        mailing_address: None,
    });

    let expected_customer_user_input_error = CustomerUserInputError {
        id: Some(UuidVO::PARSE_ERROR.to_string()),
        name: Some(ValueObjectError::REQUIRED.to_string()),
        contact_name: None,
        email: Some(Email::VALIDATION_ERROR.to_string()),
        phone_number: Some(CustomerPhoneNumber::VALIDATION_ERROR.to_string()),
        status: Some(CustomerStatus::VALIDATION_ERROR.to_string()),
        customer_type: None,
        billing_address: AddressUserInputError {
            country_code: Some(CountryCode::VALIDATION_ERROR.to_string()),
            ..no_address_error()
        },
        mailing_address: no_address_error(),
    };
    assert!(customer_user_input.is_err());
    assert_eq!(
        expected_customer_user_input_error,
        customer_user_input.unwrap_err()
    );
}

#[test]
fn invalid_customer_user_input_legal() {
    let customer_user_input = CustomerUserInput::try_from(CustomerUserInputHelper {
        id: None,
        name: String::from(""),
        contact_name: String::from(""),
        email: String::from(""),
        phone_number: String::from("+3630a234567"),
        status: String::from(""),
        customer_type: String::from("legal"),
        billing_address: Some(address_helper("HUN")),
        mailing_address: None,
    });

    let expected_customer_user_input_error = CustomerUserInputError {
        id: None,
        name: Some(ValueObjectError::REQUIRED.to_string()),
        contact_name: Some(ValueObjectError::REQUIRED.to_string()),
        email: Some(ValueObjectError::REQUIRED.to_string()),
        phone_number: Some(CustomerPhoneNumber::VALIDATION_ERROR.to_string()),
        status: Some(ValueObjectError::REQUIRED.to_string()),
        customer_type: None,
        billing_address: AddressUserInputError {
            country_code: Some(CountryCode::VALIDATION_ERROR.to_string()),
            ..no_address_error()
        },
        mailing_address: no_address_error(),
    };

    assert!(customer_user_input.is_err());
    assert_eq!(
        expected_customer_user_input_error,
        customer_user_input.unwrap_err()
    );
}

#[test]
fn customer_form_with_unknown_type_reports_only_the_type() {
    let result = CustomerUserInput::from_helper(CustomerUserInputHelper {
        id: None,
        name: String::from("Teszt Elek"),
        contact_name: String::from(""),
        email: String::from("teszt.elek@example.com"),
        phone_number: String::from(""),
        status: String::from("lead"),
        customer_type: String::from("robot"),
        billing_address: None,
        mailing_address: None,
    });
    let error = result.unwrap_err();
    assert!(!error.is_empty());
    assert_eq!(error.customer_type, Some(CustomerType::VALIDATION_ERROR.to_string()));
    assert_eq!(error.contact_name, None);
    assert_eq!(error.name, None);
}

#[test]
fn customer_form_keeps_trimmed_enumerations() {
    let input = CustomerUserInput::from_helper(CustomerUserInputHelper {
        id: Some(String::from("  ")),
        name: String::from("Teszt Elek"),
        contact_name: String::from("ignored"),
        email: String::from("teszt.elek@example.com"),
        phone_number: String::from(""),
        status: String::from(" prospect "),
        customer_type: String::from(" natural"),
        billing_address: None,
        mailing_address: None,
    })
    .unwrap();
    assert_eq!(input.status.as_str().unwrap(), "prospect");
    assert_eq!(input.customer_type.as_str().unwrap(), "natural");
    assert_eq!(input.contact_name, None);
    assert!(!input.id.is_present());
    assert!(!input.phone_number.is_present());
}

#[test]
fn customer_error_is_empty_only_without_messages() {
    let empty = CustomerUserInputError::default();
    assert!(empty.is_empty());
    let one = CustomerUserInputError {
        email: Some(Email::VALIDATION_ERROR.to_string()),
        ..CustomerUserInputError::default()
    };
    assert!(!one.is_empty());
}

#[test]
fn customer_status_values() {
    for s in ["active", "lead", "prospect", "inactive"] {
        assert!(ValueObjectRequired::<CustomerStatus>::parse(s).is_ok());
    }
    assert_eq!(
        ValueObjectRequired::<CustomerStatus>::parse("deleted").unwrap_err(),
        ValueObjectError::InvalidInput(CustomerStatus::VALIDATION_ERROR)
    );
}

#[test]
fn customer_name_counts_bytes() {
    // 128 two-byte letters are 256 bytes.
    let long = "é".repeat(128);
    assert_eq!(
        ValueObjectRequired::<Name>::parse(&long).unwrap_err(),
        ValueObjectError::InvalidInput(Name::VALIDATION_ERROR)
    );
    let fits = "é".repeat(127);
    assert!(ValueObjectRequired::<Name>::parse(&fits).is_ok());
}

#[test]
fn optional_phone_number_is_absent_when_blank() {
    let phone = ValueObjectOptional::<PhoneNumber>::parse("   ").unwrap();
    assert_eq!(phone.as_str(), None);
    let phone = ValueObjectOptional::<PhoneNumber>::parse("+3612345").unwrap();
    assert_eq!(phone.as_str(), Some("+3612345"));
}

#[test]
fn customer_form_refused_for_a_bad_mailing_address_alone() {
    let mut mailing = address_helper("HU");
    mailing.settlement = String::from("   ");
    mailing.postal_code = "9".repeat(256);
    let error = CustomerUserInput::try_from(CustomerUserInputHelper {
        id: None,
        name: String::from("Teszt Elek"),
        contact_name: String::from(""),
        email: String::from("teszt.elek@example.com"),
        phone_number: String::from(""),
        status: String::from("active"),
        customer_type: String::from("natural"),
        billing_address: Some(address_helper("HU")),
        mailing_address: Some(mailing),
    })
    .unwrap_err();
    assert!(!error.is_empty());
    assert_eq!(error.name, None);
    assert_eq!(error.email, None);
    assert!(error.billing_address.is_empty());
    assert_eq!(
        error.mailing_address,
        AddressUserInputError {
            settlement: Some(ValueObjectError::REQUIRED.to_string()),
            postal_code: Some(obvia::tenant::address::types::AddressPart::VALIDATION_ERROR.to_string()),
            ..no_address_error()
        }
    );
}

#[test]
fn customer_form_keeps_both_addresses() {
    let mut mailing = address_helper("AT");
    mailing.id = Some(String::from("  "));
    mailing.settlement = String::from("Wien");
    let input = CustomerUserInput::try_from(CustomerUserInputHelper {
        id: None,
        name: String::from("Teszt Kft."),
        contact_name: String::from("Teszt Elek"),
        email: String::from("teszt.elek@example.com"),
        phone_number: String::from(""),
        status: String::from("active"),
        customer_type: String::from("legal"),
        billing_address: Some(address_helper("HU")),
        mailing_address: Some(mailing),
    })
    .unwrap();
    assert_eq!(input.billing_address, Some(address_input()));
    let mailing = input.mailing_address.unwrap();
    assert_eq!(mailing.country_code.as_str().unwrap(), "AT");
    assert_eq!(mailing.settlement.as_str().unwrap(), "Wien");
    assert!(!mailing.id.is_present());
}

#[test]
fn customer_error_is_not_empty_with_an_address_message() {
    let error = CustomerUserInputError {
        mailing_address: AddressUserInputError {
            door: Some(String::from("x")),
            ..no_address_error()
        },
        ..CustomerUserInputError::default()
    };
    assert!(!error.is_empty());
    assert!(CustomerUserInputError::from(no_address_error()).is_empty());
}

#[test]
fn address_form_rules() {
    let accepted = AddressUserInput::try_from(address_helper("HU")).unwrap();
    assert_eq!(accepted, address_input());
    assert_eq!(accepted.house_number.as_str(), Some("1"));
    assert_eq!(accepted.building.as_str(), None);

    let mut with_id = address_helper("HU");
    with_id.id = Some(String::from("0195d6a2-7c43-7b4e-9f1a-2b3c4d5e6f70"));
    let kept = AddressUserInput::from_helper(with_id).unwrap();
    assert_eq!(kept.id.as_uuid(), Some(0x0195d6a2_7c43_7b4e_9f1a_2b3c4d5e6f70));

    let mut bad = address_helper("hu");
    bad.id = Some(String::from("nem-uuid"));
    bad.postal_code = String::from("");
    bad.door = "ű".repeat(128);
    let error = AddressUserInput::from_helper(bad).unwrap_err();
    assert!(!error.is_empty());
    assert_eq!(
        error,
        AddressUserInputError {
            id: Some(UuidVO::PARSE_ERROR.to_string()),
            country_code: Some(CountryCode::VALIDATION_ERROR.to_string()),
            postal_code: Some(ValueObjectError::REQUIRED.to_string()),
            door: Some(obvia::tenant::address::types::AddressPart::VALIDATION_ERROR.to_string()),
            ..no_address_error()
        }
    );
    assert!(AddressUserInputError::default().is_empty());
    assert!(AddressUserInputError::from(ValueObjectError::Required).is_empty());
}

#[test]
fn country_codes() {
    for ok in ["HU", "AT", "DE"] {
        assert!(ValueObjectRequired::<CountryCode>::parse(ok).is_ok(), "{ok}");
    }
    for bad in ["HUN", "H", "hu", "H1", "ÁT", " DE "] {
        assert_eq!(
            ValueObjectRequired::<CountryCode>::parse(bad).unwrap_err(),
            ValueObjectError::InvalidInput(CountryCode::VALIDATION_ERROR),
            "{bad}"
        );
    }
    assert_eq!(
        ValueObjectRequired::<CountryCode>::parse("  ").unwrap_err(),
        ValueObjectError::Required
    );
}
