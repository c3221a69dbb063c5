use account_core::address::{CreateAddressRequest, ModelEx as Address, UpdateAddressRequest};
use account_core::error::{AuthError, ValidationIssue};
use account_core::lock_policy::{evaluate_lock, LockPolicy};
use account_core::rules::{email_verdict, phone_verdict};
use account_core::user::{CreateUserRequest, ModelEx};

fn create_request(first: &str, last: &str, email: &str) -> CreateUserRequest {
    CreateUserRequest {
        avatar: None,
        first_name: first.to_string(),
        last_name: last.to_string(),
        username: "u".to_string(),
        email: email.to_string(),
        password: "p".to_string(),
        birth_of_date: None,
        phone_number: None,
    }
}

#[test]
fn create_user_field_errors() {
    let err = |r: CreateUserRequest| ModelEx::create_new_user(&r, 0).err();
    assert_eq!(err(create_request(" ", "L", "a@b")), Some(AuthError::Validation(ValidationIssue::FirstNameRequired)));
    assert_eq!(err(create_request("F", "", "a@b")), Some(AuthError::Validation(ValidationIssue::LastNameRequired)));
    assert_eq!(err(create_request("F", "L", "  ")), Some(AuthError::Validation(ValidationIssue::EmailRequired)));
    assert_eq!(err(create_request("F", "L", "ab")), Some(AuthError::Validation(ValidationIssue::EmailFormat)));
    assert_eq!(err(create_request("F", "L", "a@b")), None);
}

#[test]
fn address_field_errors() {
    let base = CreateAddressRequest {
        user_id: 1,
        title: None,
        address_line_1: "1 Main St".to_string(),
        address_line_2: None,
        country: "".to_string(),
        city: "Paris".to_string(),
        postal_code: None,
        landmark: None,
        phone_number: None,
    };
    assert_eq!(
        Address::create_new_address(&base).err(),
        Some(AuthError::Validation(ValidationIssue::CountryRequired))
    );
    let no_city = CreateAddressRequest { country: "FR".to_string(), city: "\t".to_string(), ..base };
    assert_eq!(
        Address::create_new_address(&no_city).err(),
        Some(AuthError::Validation(ValidationIssue::CityRequired))
    );
    let ok = CreateAddressRequest { city: "Paris".to_string(), ..no_city };
    let a = Address::create_new_address(&ok).unwrap();
    let upd = UpdateAddressRequest {
        title: None,
        address_line_1: Some("  ".to_string()),
        address_line_2: None,
        country: None,
        city: None,
        postal_code: None,
        landmark: None,
        phone_number: None,
        status: None,
    };
    assert_eq!(a.update_from(&upd).err(), Some(AuthError::Validation(ValidationIssue::AddressLineRequired)));
}

#[test]
fn pattern_verdicts() {
    assert_eq!(email_verdict(None), Err(AuthError::Validation(ValidationIssue::EmailPatternUnusable)));
    assert_eq!(email_verdict(Some(false)), Err(AuthError::Validation(ValidationIssue::EmailFormat)));
    assert_eq!(email_verdict(Some(true)), Ok(()));
    assert_eq!(phone_verdict(None), Err(AuthError::Validation(ValidationIssue::PhonePatternUnusable)));
    assert_eq!(phone_verdict(Some(false)), Err(AuthError::Validation(ValidationIssue::PhoneFormat)));
    assert_eq!(phone_verdict(Some(true)), Ok(()));
}

#[test]
fn policy_evaluation_on_stored_counters() {
    let p = LockPolicy::standard();
    assert_eq!(evaluate_lock(&p, 5, Some(1000), 1100), Some(1100 + 1800));
    assert_eq!(evaluate_lock(&p, 5, Some(1000), 1000 + 900), None);
    assert_eq!(evaluate_lock(&p, 4, Some(1000), 1100), None);
    assert_eq!(evaluate_lock(&p, 7, None, 0), Some(1800));
}
