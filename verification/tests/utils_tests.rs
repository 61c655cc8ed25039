use property_ledger::processor::ProcessError;
use property_ledger::utils::{
    calculate_token_price, calculate_yield_amount, check_account_owner, ids_equal,
    string_to_fixed_array, validate_property_data, ValidationError,
};

#[test]
fn token_price_divides_value_across_supply() {
    assert_eq!(calculate_token_price(1_000_000, 1000), 1000);
    assert_eq!(calculate_token_price(999, 1000), 0);
    assert_eq!(calculate_token_price(1001, 10), 100);
    assert_eq!(calculate_token_price(500, 0), 0);
}

#[test]
fn yield_amount_is_pro_rata_floor() {
    assert_eq!(calculate_yield_amount(30, 100, 1000), 300);
    assert_eq!(calculate_yield_amount(70, 100, 1000), 700);
    assert_eq!(calculate_yield_amount(1, 3, 10), 3);
    assert_eq!(calculate_yield_amount(2, 3, 10), 6);
    assert_eq!(calculate_yield_amount(5, 0, 100), 0);
}

#[test]
fn fixed_array_pads_and_truncates() {
    let padded = string_to_fixed_array("abc", 8);
    assert_eq!(padded, vec![b'a', b'b', b'c', 0, 0, 0, 0, 0]);
    let truncated = string_to_fixed_array("abcdefgh", 4);
    assert_eq!(truncated, vec![b'a', b'b', b'c', b'd']);
    let empty = string_to_fixed_array("", 3);
    assert_eq!(empty, vec![0, 0, 0]);
}

#[test]
fn validation_accepts_good_fields() {
    assert_eq!(
        validate_property_data(b"Mill House", b"3 Bridge Lane", 100_000, 100, 100),
        Ok(())
    );
}

#[test]
fn validation_reports_distinct_kinds() {
    let long_name = vec![b'a'; 65];
    let long_address = vec![b'b'; 129];
    assert_eq!(
        validate_property_data(b"", b"addr", 1, 1, 0),
        Err(ValidationError::NameEmpty)
    );
    assert_eq!(
        validate_property_data(&long_name, b"addr", 1, 1, 0),
        Err(ValidationError::NameTooLong)
    );
    assert_eq!(
        validate_property_data(b"name", b"", 1, 1, 0),
        Err(ValidationError::AddressEmpty)
    );
    assert_eq!(
        validate_property_data(b"name", &long_address, 1, 1, 0),
        Err(ValidationError::AddressTooLong)
    );
    assert_eq!(
        validate_property_data(b"name", b"addr", 0, 1, 0),
        Err(ValidationError::ValueZero)
    );
    assert_eq!(
        validate_property_data(b"name", b"addr", 1, 0, 0),
        Err(ValidationError::SupplyZero)
    );
    assert_eq!(
        validate_property_data(b"name", b"addr", 1, 1, 101),
        Err(ValidationError::YieldTooHigh)
    );
}

#[test]
fn identity_comparison() {
    let a = vec![1u8; 32];
    let b = vec![1u8; 32];
    let mut c = vec![1u8; 32];
    c[31] = 2;
    assert!(ids_equal(&a, &b));
    assert!(!ids_equal(&a, &c));
    assert!(!ids_equal(&a, &a[..31]));
}

#[test]
fn account_owner_check() {
    let program = vec![5u8; 32];
    let other = vec![6u8; 32];
    assert_eq!(check_account_owner(&program, &program), Ok(()));
    assert_eq!(
        check_account_owner(&other, &program),
        Err(ProcessError::IncorrectProgramId)
    );
}
