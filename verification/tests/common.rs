use obvia::tenant::customers::dto::CustomerUserInputError;
use obvia::tenant::inventory::dto::InventoryUserInputError;
use obvia::tenant::inventory_movements::dto::InventoryMovementUserInputError;
use obvia::tenant::inventory_reservations::dto::InventoryReservationUserInputError;
use obvia::tenant::products::dto::ProductUserInputError;
use obvia::tenant::services::dto::ServiceUserInputError;
use obvia::common::service::{
    conflict_on_unique, join_text, require_id_for_update, AppErrorParts, RepositoryFailure,
    ServiceError,
};
use obvia::common::text::{is_blank_str, is_white_space_char, text_eq, trim_str, utf8_len_at_most};
use obvia::common::types::{
    parse_i32, pattern_verdict, ActivityStatus, CurrencyCode, Description, Email, Float64,
    Integer32, Quantity, UuidVO,
};
use obvia::common::value_object::{
    keep_trimmed_str, keep_unless_blank_str, ValueObjectData, ValueObjectError,
    ValueObjectOptional, ValueObjectRequired,
};
use obvia::tenant::customers::dto::string_or_empty;
use obvia::tenant::customers::service::{insert_failure, CustomersServiceError};
use obvia::tenant::inventory_movements::service::InventoryMovementsServiceError;
use obvia::tenant::Modules;
use obvia::tenant::inventory::service::{insert_failure as inventory_insert_failure, INVENTORY_EXISTS};
use obvia::tenant::services::service::{insert_failure as service_insert_failure, SERVICE_EXISTS};

#[test]
fn trim_matches_std() {
    for s in ["", "  ", " a ", "\u{3000}x y\t\n", "\u{85}é\u{a0}", "abc"] {
        assert_eq!(trim_str(s), s.trim());
        assert_eq!(is_blank_str(s), s.trim().is_empty());
    }
}

#[test]
fn white_space_matches_std() {
    for c in [' ', '\t', '\n', '\u{a0}', '\u{2028}', '\u{3000}', 'a', '0', '\u{200b}', '_'] {
        assert_eq!(is_white_space_char(c), c.is_whitespace());
    }
}

#[test]
fn text_eq_compares_characters() {
    assert!(text_eq("active", "active"));
    assert!(!text_eq("active", "Active"));
    assert!(!text_eq("active", "activ"));
    assert!(text_eq("", ""));
}

#[test]
fn utf8_length_limit() {
    assert!(utf8_len_at_most("abc", 3));
    assert!(!utf8_len_at_most("abcd", 3));
    assert!(!utf8_len_at_most("éa", 2));
    assert!(utf8_len_at_most("é", 2));
    assert!(utf8_len_at_most("", 0));
}

#[test]
fn parse_i32_matches_std() {
    for s in [
        "0", "-0", "+7", "-2147483648", "2147483647", "2147483648", "-2147483649", "", "-",
        "+", "1a", " 1", "00012", "99999999999999999999",
    ] {
        assert_eq!(parse_i32(s), s.parse::<i32>().ok(), "input {:?}", s);
    }
}

#[test]
fn screening_of_raw_input() {
    assert_eq!(keep_unless_blank_str("  "), None);
    assert_eq!(keep_unless_blank_str(" a "), Some(" a ".to_string()));
    assert_eq!(keep_trimmed_str("  "), None);
    assert_eq!(keep_trimmed_str(" a "), Some("a".to_string()));
    assert_eq!(string_or_empty(None), "");
    assert_eq!(string_or_empty(Some("x".to_string())), "x");
}

#[test]
fn value_object_error_messages() {
    assert_eq!(ValueObjectError::Required.to_string(), ValueObjectError::REQUIRED);
    assert_eq!(ValueObjectError::Required.message(), "A mező kitöltése kötelező!");
    assert_eq!(
        ValueObjectError::InvalidInput("Hibás pénznem kód").to_string(),
        "Hibás pénznem kód"
    );
}

#[test]
fn required_and_optional_value_objects() {
    assert_eq!(
        ValueObjectRequired::<UuidVO>::parse("   ").unwrap_err(),
        ValueObjectError::Required
    );
    let absent = ValueObjectOptional::<UuidVO>::parse("   ").unwrap();
    assert!(!absent.is_present());
    assert_eq!(absent.as_str(), None);
    assert_eq!(
        ValueObjectOptional::<UuidVO>::parse("x").unwrap_err(),
        ValueObjectError::InvalidInput(UuidVO::PARSE_ERROR)
    );
    let present = "67e55044-10b1-426f-9247-bb680e5fe0c8"
        .parse::<ValueObjectOptional<UuidVO>>()
        .unwrap();
    assert!(present.is_present());
    assert_eq!(
        present.as_uuid(),
        Some(0x67e5504410b1426f9247bb680e5fe0c8_u128)
    );
}

#[test]
fn uuid_value_reads_the_uuid() {
    let required = ValueObjectRequired::<UuidVO>::parse("67e55044-10b1-426f-9247-bb680e5fe0c8")
        .unwrap();
    assert_eq!(required.as_uuid(), Ok(0x67e5504410b1426f9247bb680e5fe0c8_u128));
    assert_ne!(required.as_uuid(), Ok(0));
    let simple = ValueObjectRequired::<UuidVO>::parse("67e5504410b1426f9247bb680e5fe0c8").unwrap();
    assert_eq!(simple.as_uuid(), Ok(0x67e5504410b1426f9247bb680e5fe0c8_u128));
}

#[test]
fn integer_value_reads_the_number() {
    let n = ValueObjectOptional::<Integer32>::parse("-42").unwrap();
    assert_eq!(n.as_i32(), Some(-42));
    assert_eq!(
        ValueObjectOptional::<Integer32>::parse("4.2").unwrap_err(),
        ValueObjectError::InvalidInput(Integer32::PARSE_ERROR)
    );
}

#[test]
fn decimal_values() {
    assert!(ValueObjectRequired::<Float64>::parse("12.50").is_ok());
    assert!(ValueObjectRequired::<Float64>::parse("-3").is_ok());
    assert_eq!(
        ValueObjectRequired::<Float64>::parse("12,50").unwrap_err(),
        ValueObjectError::InvalidInput(Float64::PARSE_ERROR)
    );
    assert!(ValueObjectRequired::<Quantity>::parse("0.001").is_ok());
    assert_eq!(
        ValueObjectRequired::<Quantity>::parse("0").unwrap_err(),
        ValueObjectError::InvalidInput(Quantity::VALIDATION_ERROR)
    );
    assert_eq!(
        ValueObjectRequired::<Quantity>::parse("-1").unwrap_err(),
        ValueObjectError::InvalidInput(Quantity::VALIDATION_ERROR)
    );
    assert_eq!(
        ValueObjectRequired::<Quantity>::parse("sok").unwrap_err(),
        ValueObjectError::InvalidInput(Quantity::PARSE_ERROR)
    );
}

#[test]
fn email_values() {
    assert!(ValueObjectRequired::<Email>::parse("a.b@example.hu").is_ok());
    for bad in ["a.example.hu", "a@b", "a b@example.hu", "@example.hu", "a@@example.hu"] {
        assert_eq!(
            ValueObjectRequired::<Email>::parse(bad).unwrap_err(),
            ValueObjectError::InvalidInput(Email::VALIDATION_ERROR),
            "input {:?}",
            bad
        );
    }
    assert!(Email("x@y.z".to_string()).validate().is_ok());
}

#[test]
fn pattern_verdicts() {
    assert_eq!(pattern_verdict(Some(true), "m"), Ok(()));
    assert_eq!(
        pattern_verdict(Some(false), "m"),
        Err(ValueObjectError::InvalidInput("m"))
    );
    assert_eq!(pattern_verdict(None, "m"), Err(ValueObjectError::InvalidInput("m")));
}

#[test]
fn currency_codes() {
    for good in ["HUF", "EUR", "USD"] {
        assert!(CurrencyCode(good.to_string()).validate().is_ok());
    }
    for bad in ["huf", "HU", "HUFF", "H1F", "ÁFA"] {
        assert_eq!(
            CurrencyCode(bad.to_string()).validate(),
            Err(ValueObjectError::InvalidInput(CurrencyCode::VALIDATION_ERROR))
        );
    }
}

#[test]
fn description_limit_counts_characters() {
    assert!(Description("ő".repeat(3000)).validate().is_ok());
    assert_eq!(
        Description("a".repeat(3001)).validate(),
        Err(ValueObjectError::InvalidInput(Description::VALIDATION_ERROR))
    );
}

#[test]
fn activity_status_values() {
    assert!(ValueObjectRequired::<ActivityStatus>::parse(" active").is_ok());
    assert!(ValueObjectRequired::<ActivityStatus>::parse("inactive").is_ok());
    assert_eq!(
        ValueObjectRequired::<ActivityStatus>::parse("Active").unwrap_err(),
        ValueObjectError::InvalidInput(ActivityStatus::VALIDATION_ERROR)
    );
}

#[test]
fn service_error_answers() {
    assert_eq!(
        ServiceError::Unauthorized.to_app_error(),
        AppErrorParts {
            status: 401,
            user_facing: true,
            logged_as_error: false,
            message: "Hozzáférés megtagadva!".to_string(),
        }
    );
    assert_eq!(ServiceError::Conflict("x").to_app_error().status, 409);
    let unprocessable = ServiceError::UnprocessableEntry("rossz").to_app_error();
    assert_eq!(unprocessable.status, 422);
    assert_eq!(
        unprocessable.message,
        "Hiba történt az adatok feldolgozása során: rossz"
    );
    let missing = ServiceError::Repository(RepositoryFailure::RowNotFound).to_app_error();
    assert_eq!(missing.status, 404);
    assert_eq!(missing.message, "Nem található");
    let other = ServiceError::Repository(RepositoryFailure::Other("boom".to_string()))
        .to_app_error();
    assert_eq!(other.status, 500);
    assert!(!other.user_facing);
    assert!(other.logged_as_error);
    assert_eq!(other.message, "Repository error: boom");
    assert_eq!(ServiceError::InvalidSelectList.to_app_error().status, 500);
    assert_eq!(ServiceError::InvalidState.to_string(), ServiceError::INVALID_STATE);
    assert_eq!(
        ServiceError::ParseError("bad".to_string()).to_string(),
        "Parse error: bad"
    );
    assert_eq!(
        RepositoryFailure::RowNotFound.detail(),
        RepositoryFailure::ROW_NOT_FOUND
    );
}

#[test]
fn updates_need_an_identifier() {
    let none = ValueObjectOptional::<UuidVO>::parse("").unwrap();
    assert_eq!(
        require_id_for_update(&none),
        Err(ServiceError::UnprocessableEntry(ServiceError::ID_REQUIRED))
    );
    let some = ValueObjectOptional::<UuidVO>::parse("67e55044-10b1-426f-9247-bb680e5fe0c8")
        .unwrap();
    assert_eq!(require_id_for_update(&some), Ok(()));
}

#[test]
fn unique_violations_become_conflicts() {
    assert_eq!(
        conflict_on_unique(RepositoryFailure::UniqueViolation("k".to_string()), "foglalt"),
        ServiceError::Conflict("foglalt")
    );
    assert_eq!(
        conflict_on_unique(RepositoryFailure::RowNotFound, "foglalt"),
        ServiceError::Repository(RepositoryFailure::RowNotFound)
    );
    assert_eq!(
        insert_failure(RepositoryFailure::UniqueViolation("email".to_string())),
        CustomersServiceError::CustomerExists
    );
    assert_eq!(
        insert_failure(RepositoryFailure::Other("x".to_string())),
        CustomersServiceError::Repository(RepositoryFailure::Other("x".to_string()))
    );
}

#[test]
fn customer_service_error_answers() {
    let exists = CustomersServiceError::CustomerExists.to_app_error();
    assert_eq!(exists.status, 409);
    assert_eq!(exists.message, CustomersServiceError::CUSTOMER_EXISTS);
    assert!(exists.user_facing);
    let io = CustomersServiceError::IOError("disk".to_string()).to_app_error();
    assert_eq!(io.status, 500);
    assert_eq!(io.message, "IO error: disk");
    assert_eq!(
        CustomersServiceError::PdfGenError("p".to_string()).to_string(),
        "PdfGen error: p"
    );
}

#[test]
fn movement_service_error_answers() {
    let e = InventoryMovementsServiceError::InvalidSelectList;
    assert_eq!(e.to_string(), InventoryMovementsServiceError::INVALID_SELECT_LIST);
    assert_eq!(InventoryMovementsServiceError::Unauthorized.to_app_error().status, 401);
}

#[test]
fn join_text_concatenates() {
    assert_eq!(join_text("ab", "cd"), "abcd");
    assert_eq!(join_text("", ""), "");
}

#[test]
fn module_names() {
    let all = [
        Modules::Customers,
        Modules::Warehouses,
        Modules::Taxes,
        Modules::Products,
        Modules::Inventory,
        Modules::InventoryMovements,
        Modules::InventoryReservations,
        Modules::Services,
        Modules::Tasks,
        Modules::Worksheets,
    ];
    let names: Vec<String> = all.iter().map(|m| m.to_string()).collect();
    assert_eq!(names[0], "customers");
    assert_eq!(names[5], "inventory_movements");
    assert_eq!(Modules::Worksheets.name(), "worksheets");
    for i in 0..names.len() {
        for j in 0..names.len() {
            assert_eq!(i == j, names[i] == names[j]);
        }
    }
}

#[test]
fn parsed_values_parse_again_to_themselves() {
    let status = ValueObjectRequired::<ActivityStatus>::parse("  active \t").unwrap();
    let again = ValueObjectRequired::<ActivityStatus>::parse(status.as_str().unwrap()).unwrap();
    assert_eq!(status, again);
    let email = ValueObjectRequired::<Email>::parse("a@b.hu").unwrap();
    let again = ValueObjectRequired::<Email>::parse(email.as_str().unwrap());
    assert_eq!(again, Ok(email));
    let none = ValueObjectOptional::<Integer32>::parse(" ").unwrap();
    assert!(!none.is_present());
    assert_eq!(
        ValueObjectRequired::<Integer32>::parse(" ").unwrap_err(),
        ValueObjectError::Required
    );
}

#[test]
fn value_errors_convert_to_empty_form_reports() {
    assert_eq!(
        CustomerUserInputError::from(ValueObjectError::Required),
        CustomerUserInputError::default()
    );
    assert!(InventoryUserInputError::from(ValueObjectError::InvalidInput("x")).is_empty());
    assert!(InventoryMovementUserInputError::from(ValueObjectError::Required).is_empty());
    assert!(InventoryReservationUserInputError::from(ValueObjectError::Required).is_empty());
    assert_eq!(
        ProductUserInputError::from(ValueObjectError::Required),
        ProductUserInputError::default()
    );
    assert_eq!(
        ServiceUserInputError::from(ValueObjectError::Required),
        ServiceUserInputError::default()
    );
}

#[test]
fn module_insert_conflicts() {
    assert_eq!(
        inventory_insert_failure(RepositoryFailure::UniqueViolation("k".to_string())),
        ServiceError::Conflict(INVENTORY_EXISTS)
    );
    assert_eq!(
        service_insert_failure(RepositoryFailure::UniqueViolation("k".to_string())),
        ServiceError::Conflict(SERVICE_EXISTS)
    );
    assert_eq!(
        service_insert_failure(RepositoryFailure::RowNotFound),
        ServiceError::Repository(RepositoryFailure::RowNotFound)
    );
    assert_eq!(
        ServiceError::Conflict(SERVICE_EXISTS).to_app_error().message,
        "A megadott névvel már létezik szolgáltatás a rendszerben!"
    );
}
