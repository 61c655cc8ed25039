//! The validation layer and arithmetic helpers: pure predicates over
//! decoded fields, applied before any mutation, plus the price and yield
//! formulas shared by the settlement engine.

use crate::codec::spec_pad;
use crate::processor::ProcessError;
use vstd::prelude::*;
use vstd::slice::slice_subrange;
use vstd::string::StringSliceAdditionalSpecFns;

verus! {

/// One distinct kind per failing business-rule check.
#[derive(Clone, Copy, Debug, PartialEq, Eq, Structural)]
pub enum ValidationError {
    NameEmpty,
    NameTooLong,
    AddressEmpty,
    AddressTooLong,
    ValueZero,
    SupplyZero,
    YieldTooHigh,
}

/// The validation rules for property creation, checked in order: name
/// non-empty and at most 64 bytes, address non-empty and at most 128 bytes,
/// value and supply strictly positive, yield percentage at most 100.
pub open spec fn spec_validate_property_data(
    name: Seq<u8>,
    address: Seq<u8>,
    total_value: u64,
    token_supply: u64,
    yield_percentage: u8,
) -> Result<(), ValidationError> {
    if name.len() == 0 {
        Err(ValidationError::NameEmpty)
    } else if name.len() > 64 {
        Err(ValidationError::NameTooLong)
    } else if address.len() == 0 {
        Err(ValidationError::AddressEmpty)
    } else if address.len() > 128 {
        Err(ValidationError::AddressTooLong)
    } else if total_value == 0 {
        Err(ValidationError::ValueZero)
    } else if token_supply == 0 {
        Err(ValidationError::SupplyZero)
    } else if yield_percentage > 100 {
        Err(ValidationError::YieldTooHigh)
    } else {
        Ok(())
    }
}

/// Validates the fields of a property record before creation.  Never
/// mutates anything; each failing check reports its own error kind.
pub fn validate_property_data(
    name: &[u8],
    address: &[u8],
    total_value: u64,
    token_supply: u64,
    yield_percentage: u8,
) -> (r: Result<(), ValidationError>)
    ensures
        r == spec_validate_property_data(
            name@,
            address@,
            total_value,
            token_supply,
            yield_percentage,
        ),
{
    if name.len() == 0 {
        Err(ValidationError::NameEmpty)
    } else if name.len() > 64 {
        Err(ValidationError::NameTooLong)
    } else if address.len() == 0 {
        Err(ValidationError::AddressEmpty)
    } else if address.len() > 128 {
        Err(ValidationError::AddressTooLong)
    } else if total_value == 0 {
        Err(ValidationError::ValueZero)
    } else if token_supply == 0 {
        Err(ValidationError::SupplyZero)
    } else if yield_percentage > 100 {
        Err(ValidationError::YieldTooHigh)
    } else {
        Ok(())
    }
}

/// Price of one token: the property value divided evenly across the supply
/// (floor division); zero when the supply is zero.
pub fn calculate_token_price(property_value: u64, token_supply: u64) -> (r: u64)
    ensures
        r == if token_supply == 0 {
            0int
        } else {
            property_value as int / token_supply as int
        },
{
    if token_supply == 0 {
        return 0;
    }
    property_value / token_supply
}

/// A holder's pro-rata share of a yield amount:
/// `floor(tokens_owned * yield_amount / total_tokens)`; zero when the total
/// supply is zero.
pub fn calculate_yield_amount(tokens_owned: u64, total_tokens: u64, yield_amount: u64) -> (r: u64)
    requires
        total_tokens != 0 ==> tokens_owned * yield_amount <= u64::MAX,
    ensures
        r == if total_tokens == 0 {
            0int
        } else {
            (tokens_owned * yield_amount) / (total_tokens as int)
        },
{
    if total_tokens == 0 {
        return 0;
    }
    (tokens_owned * yield_amount) / total_tokens
}

/// Converts a string to a fixed-size zero-padded byte buffer of length `n`,
/// truncating the string's bytes if they do not fit.
pub fn string_to_fixed_array(s: &str, n: usize) -> (r: Vec<u8>)
    ensures
        r@.len() == n,
        r@ == spec_pad(
            s.spec_bytes().take(vstd::math::min(s.spec_bytes().len() as int, n as int)),
            n as int,
        ),
{
    let bytes = s.as_bytes();
    let len = if bytes.len() < n {
        bytes.len()
    } else {
        n
    };
    let mut r: Vec<u8> = Vec::new();
    crate::codec::write_text(&mut r, slice_subrange(bytes, 0, len), n);
    proof {
        assert(bytes@.subrange(0, len as int) =~= s.spec_bytes().take(
            vstd::math::min(s.spec_bytes().len() as int, n as int),
        ));
    }
    r
}

/// Whether two 32-byte identities (or any two byte strings) are equal.
pub fn ids_equal(a: &[u8], b: &[u8]) -> (r: bool)
    ensures
        r == (a@ == b@),
{
    if a.len() != b.len() {
        proof {
            assert(a@ != b@);
        }
        return false;
    }
    let n = a.len();
    let mut i: usize = 0;
    while i < n
        invariant
            i <= n,
            n == a@.len() && n == b@.len(),
            forall|j: int| 0 <= j < i ==> a@[j] == b@[j],
        decreases n - i,
    {
        if a[i] != b[i] {
            proof {
                assert(a@[i as int] != b@[i as int]);
            }
            return false;
        }
        i = i + 1;
    }
    proof {
        assert(a@ =~= b@);
    }
    true
}

/// Checks that a record is owned by this program's identity.
pub fn check_account_owner(account: &[u8], program_id: &[u8]) -> (r: Result<(), ProcessError>)
    ensures
        match r {
            Ok(()) => account@ == program_id@,
            Err(e) => e == ProcessError::IncorrectProgramId && account@ != program_id@,
        },
{
    if ids_equal(account, program_id) {
        Ok(())
    } else {
        Err(ProcessError::IncorrectProgramId)
    }
}

} // verus!
