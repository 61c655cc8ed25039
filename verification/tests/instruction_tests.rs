use property_ledger::codec::DecodeError;
use property_ledger::instruction::{PropertyInstruction, CREATE_PROPERTY_LEN};

fn create_property_bytes(
    property_id: [u8; 32],
    name: &str,
    address: &str,
    total_value: u64,
    token_supply: u64,
    yield_percentage: u8,
) -> Vec<u8> {
    let mut bytes = vec![0u8];
    bytes.extend_from_slice(&property_id);
    bytes.extend_from_slice(&property_ledger::utils::string_to_fixed_array(name, 64));
    bytes.extend_from_slice(&property_ledger::utils::string_to_fixed_array(address, 128));
    bytes.extend_from_slice(&total_value.to_le_bytes());
    bytes.extend_from_slice(&token_supply.to_le_bytes());
    bytes.push(yield_percentage);
    bytes
}

#[test]
fn unpack_create_property() {
    let bytes = create_property_bytes([4u8; 32], "Mill House", "3 Bridge Lane", 500_000, 100, 7);
    assert_eq!(bytes.len(), CREATE_PROPERTY_LEN);
    let inst = PropertyInstruction::unpack(&bytes).unwrap();
    assert_eq!(
        inst,
        PropertyInstruction::CreateProperty {
            property_id: vec![4u8; 32],
            name: b"Mill House".to_vec(),
            address: b"3 Bridge Lane".to_vec(),
            total_value: 500_000,
            token_supply: 100,
            yield_percentage: 7,
        }
    );
}

#[test]
fn unpack_create_property_rejects_short_payload() {
    let mut bytes = create_property_bytes([4u8; 32], "Mill House", "3 Bridge Lane", 500_000, 100, 7);
    bytes.pop();
    assert_eq!(
        PropertyInstruction::unpack(&bytes),
        Err(DecodeError::Malformed)
    );
}

#[test]
fn unpack_purchase_tokens() {
    let mut bytes = vec![1u8];
    bytes.extend_from_slice(&777u64.to_le_bytes());
    assert_eq!(
        PropertyInstruction::unpack(&bytes),
        Ok(PropertyInstruction::PurchaseTokens { amount: 777 })
    );
}

#[test]
fn unpack_distribute_yield() {
    let mut bytes = vec![2u8];
    bytes.extend_from_slice(&1000u64.to_le_bytes());
    assert_eq!(
        PropertyInstruction::unpack(&bytes),
        Ok(PropertyInstruction::DistributeYield { amount: 1000 })
    );
}

#[test]
fn unpack_update_property_value() {
    let mut bytes = vec![3u8];
    bytes.extend_from_slice(&42u64.to_le_bytes());
    assert_eq!(
        PropertyInstruction::unpack(&bytes),
        Ok(PropertyInstruction::UpdatePropertyValue { new_value: 42 })
    );
}

#[test]
fn unpack_rejects_empty_input() {
    assert_eq!(
        PropertyInstruction::unpack(&[]),
        Err(DecodeError::Malformed)
    );
}

#[test]
fn unpack_rejects_unknown_opcode() {
    let mut bytes = vec![9u8];
    bytes.extend_from_slice(&42u64.to_le_bytes());
    assert_eq!(
        PropertyInstruction::unpack(&bytes),
        Err(DecodeError::Malformed)
    );
}

#[test]
fn unpack_rejects_short_amount_payload() {
    let bytes = vec![1u8, 1, 2, 3];
    assert_eq!(
        PropertyInstruction::unpack(&bytes),
        Err(DecodeError::Malformed)
    );
}
