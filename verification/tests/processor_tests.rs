use property_ledger::processor::{
    process_create_property, process_distribute_yield, process_instruction,
    process_purchase_tokens, process_update_property_value, ProcessError, ProcessOutcome,
};
use property_ledger::state::{Property, PropertyToken};
use property_ledger::utils::ValidationError;

fn signer() -> Vec<u8> {
    vec![1u8; 32]
}

fn property_id() -> Vec<u8> {
    vec![2u8; 32]
}

fn empty_property() -> Property {
    Property {
        is_initialized: false,
        owner: Vec::new(),
        property_id: Vec::new(),
        name: Vec::new(),
        address: Vec::new(),
        total_value: 0,
        token_supply: 0,
        tokens_sold: 0,
        yield_percentage: 0,
        last_yield_distribution: 0,
    }
}

fn live_property() -> Property {
    Property {
        is_initialized: true,
        owner: signer(),
        property_id: property_id(),
        name: b"Mill House".to_vec(),
        address: b"3 Bridge Lane".to_vec(),
        total_value: 100_000,
        token_supply: 100,
        tokens_sold: 0,
        yield_percentage: 5,
        last_yield_distribution: 0,
    }
}

fn empty_holding() -> PropertyToken {
    PropertyToken {
        is_initialized: false,
        property_id: Vec::new(),
        owner: Vec::new(),
        amount: 0,
        purchase_price: 0,
        purchase_date: 0,
        last_yield_claim: 0,
    }
}

fn holding_of(amount: u64) -> PropertyToken {
    PropertyToken {
        is_initialized: true,
        property_id: property_id(),
        owner: vec![7u8; 32],
        amount,
        purchase_price: amount * 1000,
        purchase_date: 50,
        last_yield_claim: 50,
    }
}

#[test]
fn create_property_fills_record() {
    let mut p = empty_property();
    process_create_property(
        &mut p,
        &signer(),
        &property_id(),
        b"Mill House",
        b"3 Bridge Lane",
        100_000,
        100,
        5,
    )
    .unwrap();
    assert!(p.is_initialized);
    assert_eq!(p.owner, signer());
    assert_eq!(p.property_id, property_id());
    assert_eq!(p.name, b"Mill House".to_vec());
    assert_eq!(p.tokens_sold, 0);
}

#[test]
fn create_property_rejects_live_slot() {
    let mut p = live_property();
    let before = p.clone();
    let err = process_create_property(
        &mut p,
        &signer(),
        &property_id(),
        b"Mill House",
        b"3 Bridge Lane",
        100_000,
        100,
        5,
    )
    .unwrap_err();
    assert_eq!(err, ProcessError::AlreadyInitialized);
    assert_eq!(p, before);
}

#[test]
fn create_property_validation_error_kinds() {
    let long_name = vec![b'a'; 65];
    let long_address = vec![b'b'; 129];
    let cases: Vec<(&[u8], &[u8], u64, u64, u8, ValidationError)> = vec![
        (b"", b"addr", 1, 1, 0, ValidationError::NameEmpty),
        (&long_name, b"addr", 1, 1, 0, ValidationError::NameTooLong),
        (b"name", b"", 1, 1, 0, ValidationError::AddressEmpty),
        (b"name", &long_address, 1, 1, 0, ValidationError::AddressTooLong),
        (b"name", b"addr", 0, 1, 0, ValidationError::ValueZero),
        (b"name", b"addr", 1, 0, 0, ValidationError::SupplyZero),
        (b"name", b"addr", 1, 1, 101, ValidationError::YieldTooHigh),
    ];
    for (name, address, value, supply, yield_pct, expected) in cases {
        let mut p = empty_property();
        let err = process_create_property(
            &mut p,
            &signer(),
            &property_id(),
            name,
            address,
            value,
            supply,
            yield_pct,
        )
        .unwrap_err();
        assert_eq!(err, ProcessError::Validation(expected));
        assert!(!p.is_initialized);
    }
}

#[test]
fn purchase_initializes_fresh_holding() {
    let mut p = live_property();
    let mut h = empty_holding();
    let buyer = vec![7u8; 32];
    let cost = process_purchase_tokens(&mut p, &mut h, &buyer, 40, 60).unwrap();
    // price per unit = 100_000 / 100 = 1000; cost = 40 * 1000
    assert_eq!(cost, 40_000);
    assert!(h.is_initialized);
    assert_eq!(h.property_id, property_id());
    assert_eq!(h.owner, buyer);
    assert_eq!(h.amount, 40);
    assert_eq!(h.purchase_price, 40_000);
    assert_eq!(p.tokens_sold, 40);
    assert!(p.tokens_sold <= p.token_supply);
}

#[test]
fn purchase_grows_existing_holding() {
    let mut p = live_property();
    p.tokens_sold = 10;
    let mut h = holding_of(10);
    let buyer = vec![7u8; 32];
    let cost = process_purchase_tokens(&mut p, &mut h, &buyer, 5, 61).unwrap();
    assert_eq!(cost, 5000);
    assert_eq!(h.amount, 15);
    assert_eq!(h.purchase_price, 15_000);
    assert_eq!(h.purchase_date, 50);
    assert_eq!(p.tokens_sold, 15);
}

#[test]
fn purchase_rejects_more_than_remaining() {
    let mut p = live_property();
    p.tokens_sold = 90;
    let mut h = empty_holding();
    let err = process_purchase_tokens(&mut p, &mut h, &signer(), 11, 61).unwrap_err();
    assert_eq!(err, ProcessError::InsufficientUnits);
    assert_eq!(p.tokens_sold, 90);
    assert!(!h.is_initialized);
}

#[test]
fn purchase_rejects_empty_slot() {
    let mut p = empty_property();
    let mut h = empty_holding();
    let err = process_purchase_tokens(&mut p, &mut h, &signer(), 1, 61).unwrap_err();
    assert_eq!(err, ProcessError::NotInitialized);
}

#[test]
fn yield_distribution_even_split_has_no_dust() {
    let mut p = live_property();
    p.tokens_sold = 100;
    let mut holdings = vec![holding_of(30), holding_of(70)];
    let payouts = process_distribute_yield(&mut p, &mut holdings, 1000, 70).unwrap();
    assert_eq!(payouts, vec![300, 700]);
    assert_eq!(payouts.iter().sum::<u64>(), 1000);
    assert_eq!(p.last_yield_distribution, 70);
    assert_eq!(holdings[0].last_yield_claim, 70);
    assert_eq!(holdings[1].last_yield_claim, 70);
    assert_eq!(holdings[0].amount, 30);
}

#[test]
fn yield_distribution_leaves_dust_unassigned() {
    let mut p = live_property();
    p.token_supply = 3;
    p.tokens_sold = 3;
    let mut holdings = vec![holding_of(1), holding_of(2)];
    let payouts = process_distribute_yield(&mut p, &mut holdings, 10, 70).unwrap();
    assert_eq!(payouts, vec![3, 6]);
    // One unit of dust stays unassigned.
    assert_eq!(payouts.iter().sum::<u64>(), 9);
}

#[test]
fn update_value_requires_owner_and_positive_value() {
    let mut p = live_property();
    let stranger = vec![9u8; 32];
    let err = process_update_property_value(&mut p, &stranger, 1).unwrap_err();
    assert_eq!(err, ProcessError::Unauthorized);
    let err = process_update_property_value(&mut p, &signer(), 0).unwrap_err();
    assert_eq!(err, ProcessError::Validation(ValidationError::ValueZero));
    assert_eq!(p.total_value, 100_000);
    process_update_property_value(&mut p, &signer(), 250_000).unwrap();
    assert_eq!(p.total_value, 250_000);
}

#[test]
fn instruction_dispatch_create() {
    let mut bytes = vec![0u8];
    bytes.extend_from_slice(&property_id());
    bytes.extend_from_slice(&property_ledger::utils::string_to_fixed_array("Mill House", 64));
    bytes.extend_from_slice(&property_ledger::utils::string_to_fixed_array(
        "3 Bridge Lane",
        128,
    ));
    bytes.extend_from_slice(&100_000u64.to_le_bytes());
    bytes.extend_from_slice(&100u64.to_le_bytes());
    bytes.push(5);
    let mut p = empty_property();
    let mut h = empty_holding();
    let mut holdings: Vec<PropertyToken> = Vec::new();
    let outcome =
        process_instruction(&mut p, &mut h, &mut holdings, &signer(), &bytes, 60).unwrap();
    assert_eq!(outcome, ProcessOutcome::Created);
    assert!(p.is_initialized);
    assert_eq!(p.name, b"Mill House".to_vec());
    assert_eq!(p.token_supply, 100);
}

#[test]
fn instruction_dispatch_purchase_and_distribute() {
    let mut p = live_property();
    let mut h = empty_holding();
    let mut holdings: Vec<PropertyToken> = Vec::new();
    let mut bytes = vec![1u8];
    bytes.extend_from_slice(&40u64.to_le_bytes());
    let outcome =
        process_instruction(&mut p, &mut h, &mut holdings, &signer(), &bytes, 60).unwrap();
    assert_eq!(
        outcome,
        ProcessOutcome::Purchased {
            units: 40,
            cost: 40_000
        }
    );
    assert_eq!(p.tokens_sold, 40);

    let mut holdings = vec![holding_of(30), holding_of(10)];
    let mut bytes = vec![2u8];
    bytes.extend_from_slice(&1000u64.to_le_bytes());
    let outcome =
        process_instruction(&mut p, &mut h, &mut holdings, &signer(), &bytes, 61).unwrap();
    match outcome {
        ProcessOutcome::YieldDistributed { payouts } => {
            // 30 and 10 units of a 100-unit supply share 1000.
            assert_eq!(payouts, vec![300, 100]);
        }
        other => panic!("unexpected outcome {:?}", other),
    }
}

#[test]
fn instruction_dispatch_rejects_garbage() {
    let mut p = live_property();
    let mut h = empty_holding();
    let mut holdings: Vec<PropertyToken> = Vec::new();
    let err = process_instruction(&mut p, &mut h, &mut holdings, &signer(), &[9, 9], 60)
        .unwrap_err();
    assert_eq!(err, ProcessError::InvalidInstructionData);
}
