use gpui_form::phone::{
    classify_parse_outcome, trim_whitespace, validate_phone_number_for_country,
    validate_phone_number_for_country_label, ParsedPhone, PhoneNumberValidation,
    PhoneNumberValidationError,
};
use phonenumber::country;

#[test]
fn validates_national_number_for_selected_country() {
    let result = validate_phone_number_for_country("415 555 2671", country::US);

    assert!(result.is_valid());
    assert_eq!(result.e164(), Some("+14155552671"));
}

#[test]
fn rejects_international_number_for_wrong_selected_country() {
    let result =
        validate_phone_number_for_country_label("+1 415 550 2222", country::FR, "France");

    assert!(matches!(
        result,
        PhoneNumberValidation::Invalid(PhoneNumberValidationError::WrongCountry {
            selected_country: country::FR,
            parsed_country: Some(country::US),
            ..
        })
    ));
}

#[test]
fn validates_french_number_for_france_not_us() {
    assert!(validate_phone_number_for_country("01 42 68 53 00", country::FR).is_valid());
    assert!(!validate_phone_number_for_country("01 42 68 53 00", country::US).is_valid());
}

#[test]
fn blank_input_is_empty() {
    let result = validate_phone_number_for_country("   \t ", country::US);
    assert!(result.is_empty());
    assert_eq!(result.message(), "Enter a phone number");
    assert_eq!(result.e164(), None);
}

#[test]
fn unparseable_input_reports_parse_error_with_label() {
    let result = validate_phone_number_for_country_label("not-a-phone", country::US, "USA");
    match &result {
        PhoneNumberValidation::Invalid(PhoneNumberValidationError::Parse {
            selected_country,
            selected_label,
            ..
        }) => {
            assert_eq!(*selected_country, country::US);
            assert_eq!(selected_label, "USA");
        },
        other => panic!("unexpected result: {other:?}"),
    }
    assert!(result.message().starts_with("Could not parse as USA phone number: "));
}

#[test]
fn valid_message_shows_e164() {
    let result = validate_phone_number_for_country(" 415 555 2671 ", country::US);
    assert_eq!(result.message(), "Valid. E.164: +14155552671");
}

#[test]
fn wrong_country_message_names_both_countries() {
    let result =
        validate_phone_number_for_country_label("+1 415 550 2222", country::FR, "France");
    assert_eq!(
        result.message(),
        "Phone number country Some(US) does not match selected country: France"
    );
}

#[test]
fn classify_outcomes_exactly() {
    let parse_error = classify_parse_outcome(country::US, "US", Err("boom".to_string()));
    assert_eq!(
        parse_error,
        PhoneNumberValidation::Invalid(PhoneNumberValidationError::Parse {
            selected_country: country::US,
            selected_label: "US".to_string(),
            message: "boom".to_string(),
        })
    );
    let invalid = classify_parse_outcome(
        country::US,
        "US",
        Ok(ParsedPhone {
            country: Some(country::US),
            valid: false,
            e164: None,
        }),
    );
    assert_eq!(
        invalid,
        PhoneNumberValidation::Invalid(PhoneNumberValidationError::InvalidForCountry {
            selected_country: country::US,
            selected_label: "US".to_string(),
        })
    );
    assert_eq!(invalid.message(), "Not a valid US phone number");
    let valid = classify_parse_outcome(
        country::US,
        "US",
        Ok(ParsedPhone {
            country: Some(country::US),
            valid: true,
            e164: Some("+1".to_string()),
        }),
    );
    assert_eq!(valid.e164(), Some("+1"));
    let wrong = classify_parse_outcome(
        country::FR,
        "FR",
        Ok(ParsedPhone {
            country: None,
            valid: true,
            e164: Some("+1".to_string()),
        }),
    );
    assert!(matches!(
        wrong,
        PhoneNumberValidation::Invalid(PhoneNumberValidationError::WrongCountry {
            parsed_country: None,
            ..
        })
    ));
}

#[test]
fn trim_removes_unicode_whitespace_at_both_ends() {
    assert_eq!(trim_whitespace("  a b \n"), "a b");
    assert_eq!(trim_whitespace("\u{3000}x\u{2003}"), "x");
    assert_eq!(trim_whitespace("   "), "");
    assert_eq!(trim_whitespace(""), "");
}
