//! The instruction decoder: one opcode byte selects the command, the
//! remaining bytes are that command's fixed-layout payload.
//!
//! Decoding is purely structural: an unknown opcode or a payload shorter
//! than the opcode's required length is `DecodeError::Malformed`; business
//! validation happens later, in the validation layer.

use crate::codec::{read_bytes, read_text, read_u64_le, spec_strip, text_wf, DecodeError};
use vstd::bytes::spec_u64_from_le_bytes;
use vstd::prelude::*;

verus! {

/// Total wire length of a create-property instruction: the opcode byte plus
/// identifier (32), name (64), address (128), total value (8), token supply
/// (8) and yield percentage (1).
pub const CREATE_PROPERTY_LEN: usize = 242;

/// Total wire length of the single-integer instructions: the opcode byte
/// plus one 8-byte little-endian integer.
pub const AMOUNT_INSTRUCTION_LEN: usize = 9;

/// A decoded command of the tokenization program.
#[derive(Clone, Debug, PartialEq, Eq)]
pub enum PropertyInstruction {
    /// Create a new property record (opcode 0).
    CreateProperty {
        /// Opaque property identifier, 32 bytes.
        property_id: Vec<u8>,
        /// Property name with the field's zero padding stripped.
        name: Vec<u8>,
        /// Property address with the field's zero padding stripped.
        address: Vec<u8>,
        total_value: u64,
        token_supply: u64,
        yield_percentage: u8,
    },
    /// Purchase property tokens (opcode 1).
    PurchaseTokens { amount: u64 },
    /// Distribute yield to token holders (opcode 2).
    DistributeYield { amount: u64 },
    /// Update the property value after a revaluation (opcode 3).
    UpdatePropertyValue { new_value: u64 },
}

/// Mathematical image of a decoded command.
pub ghost enum PropertyInstructionView {
    CreateProperty {
        property_id: Seq<u8>,
        name: Seq<u8>,
        address: Seq<u8>,
        total_value: u64,
        token_supply: u64,
        yield_percentage: u8,
    },
    PurchaseTokens { amount: u64 },
    DistributeYield { amount: u64 },
    UpdatePropertyValue { new_value: u64 },
}

impl View for PropertyInstruction {
    type V = PropertyInstructionView;

    open spec fn view(&self) -> PropertyInstructionView {
        match self {
            PropertyInstruction::CreateProperty {
                property_id,
                name,
                address,
                total_value,
                token_supply,
                yield_percentage,
            } => PropertyInstructionView::CreateProperty {
                property_id: property_id@,
                name: name@,
                address: address@,
                total_value: *total_value,
                token_supply: *token_supply,
                yield_percentage: *yield_percentage,
            },
            PropertyInstruction::PurchaseTokens { amount } => {
                PropertyInstructionView::PurchaseTokens { amount: *amount }
            },
            PropertyInstruction::DistributeYield { amount } => {
                PropertyInstructionView::DistributeYield { amount: *amount }
            },
            PropertyInstruction::UpdatePropertyValue { new_value } => {
                PropertyInstructionView::UpdatePropertyValue { new_value: *new_value }
            },
        }
    }
}

/// Decoding of an instruction from its wire bytes.
pub open spec fn spec_unpack(s: Seq<u8>) -> Result<PropertyInstructionView, DecodeError> {
    if s.len() == 0 {
        Err(DecodeError::Malformed)
    } else if s[0] == 0 {
        if s.len() < CREATE_PROPERTY_LEN {
            Err(DecodeError::Malformed)
        } else {
            Ok(
                PropertyInstructionView::CreateProperty {
                    property_id: s.subrange(1, 33),
                    name: spec_strip(s.subrange(33, 97)),
                    address: spec_strip(s.subrange(97, 225)),
                    total_value: spec_u64_from_le_bytes(s.subrange(225, 233)),
                    token_supply: spec_u64_from_le_bytes(s.subrange(233, 241)),
                    yield_percentage: s[241],
                },
            )
        }
    } else if s[0] == 1 || s[0] == 2 || s[0] == 3 {
        if s.len() < AMOUNT_INSTRUCTION_LEN {
            Err(DecodeError::Malformed)
        } else {
            let x = spec_u64_from_le_bytes(s.subrange(1, 9));
            if s[0] == 1 {
                Ok(PropertyInstructionView::PurchaseTokens { amount: x })
            } else if s[0] == 2 {
                Ok(PropertyInstructionView::DistributeYield { amount: x })
            } else {
                Ok(PropertyInstructionView::UpdatePropertyValue { new_value: x })
            }
        }
    } else {
        Err(DecodeError::Malformed)
    }
}

impl PropertyInstruction {
    /// Decodes the opcode byte and the fixed-layout payload behind it.
    pub fn unpack(input: &[u8]) -> (r: Result<PropertyInstruction, DecodeError>)
        ensures
            match r {
                Ok(i) => spec_unpack(input@) == Ok::<PropertyInstructionView, DecodeError>(i@),
                Err(e) => spec_unpack(input@) == Err::<PropertyInstructionView, DecodeError>(e),
            },
    {
        let n = input.len();
        if n == 0 {
            return Err(DecodeError::Malformed);
        }
        let tag = input[0];
        if tag == 0 {
            if n < CREATE_PROPERTY_LEN {
                return Err(DecodeError::Malformed);
            }
            Ok(
                PropertyInstruction::CreateProperty {
                    property_id: read_bytes(input, 1, 32),
                    name: read_text(input, 33, 64),
                    address: read_text(input, 97, 128),
                    total_value: read_u64_le(input, 225),
                    token_supply: read_u64_le(input, 233),
                    yield_percentage: input[241],
                },
            )
        } else if tag == 1 {
            if n < AMOUNT_INSTRUCTION_LEN {
                return Err(DecodeError::Malformed);
            }
            Ok(PropertyInstruction::PurchaseTokens { amount: read_u64_le(input, 1) })
        } else if tag == 2 {
            if n < AMOUNT_INSTRUCTION_LEN {
                return Err(DecodeError::Malformed);
            }
            Ok(PropertyInstruction::DistributeYield { amount: read_u64_le(input, 1) })
        } else if tag == 3 {
            if n < AMOUNT_INSTRUCTION_LEN {
                return Err(DecodeError::Malformed);
            }
            Ok(PropertyInstruction::UpdatePropertyValue { new_value: read_u64_le(input, 1) })
        } else {
            Err(DecodeError::Malformed)
        }
    }
}

/// The name and address carried by a decoded create-property command always
/// fit their record fields and carry no trailing zero byte.
pub proof fn lemma_unpack_create_text_wf(s: Seq<u8>)
    ensures
        spec_unpack(s) matches Ok(PropertyInstructionView::CreateProperty {
            property_id,
            name,
            address,
            ..
        }) ==> property_id.len() == 32 && text_wf(name, 64) && text_wf(address, 128),
{
    if s.len() >= CREATE_PROPERTY_LEN && s[0] == 0 {
        crate::codec::lemma_strip_wf(s.subrange(33, 97));
        crate::codec::lemma_strip_wf(s.subrange(97, 225));
    }
}

} // verus!
