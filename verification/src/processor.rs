//! The tokenization program's transition engine: decode an instruction,
//! validate it, check authorization, then apply it to the ledger records it
//! names.  The value and unit transfers a transition calls for are returned
//! as an outcome value for the host to perform; every check runs before the
//! first mutation, so a rejected invocation changes nothing.

use crate::instruction::{spec_unpack, PropertyInstruction, PropertyInstructionView};
use crate::state::{Property, PropertyToken, PropertyTokenView, PropertyView};
use crate::utils::{
    ids_equal, spec_validate_property_data, validate_property_data, ValidationError,
};
use vstd::arithmetic::div_mod::{
    lemma_div_is_ordered, lemma_div_multiples_vanish, lemma_div_pos_is_pos,
    lemma_fundamental_div_mod,
};
use vstd::arithmetic::mul::{lemma_mul_inequality, lemma_mul_nonnegative, lemma_mul_upper_bound};
use vstd::pervasive::VecAdditionalExecFns;
use vstd::prelude::*;
use vstd::slice::slice_to_vec;

verus! {

/// Errors of the tokenization program's transitions.
#[derive(Clone, Copy, Debug, PartialEq, Eq, Structural)]
pub enum ProcessError {
    /// The instruction bytes could not be decoded.
    InvalidInstructionData,
    /// A business-rule check on the decoded fields failed.
    Validation(ValidationError),
    /// The target record slot already holds a live record.
    AlreadyInitialized,
    /// The target record slot holds no live record.
    NotInitialized,
    /// The invoking identity may not perform this transition.
    Unauthorized,
    /// The purchase asks for more units than remain unsold.
    InsufficientUnits,
    /// A checked arithmetic step would overflow.
    ArithmeticOverflow,
    /// A record is owned by another program.
    IncorrectProgramId,
}

/// What a successful transition asks the host to do.
#[derive(Clone, Debug, PartialEq, Eq)]
pub enum ProcessOutcome {
    /// A property record was created; nothing moves.
    Created,
    /// Transfer `units` ownership units to the buyer against `cost` in value.
    Purchased { units: u64, cost: u64 },
    /// Transfer `payouts[i]` in value to the holder of the i-th holding.
    YieldDistributed { payouts: Vec<u64> },
    /// The property valuation changed; nothing moves.
    ValueUpdated,
}

/// Sum of the units held across a sequence of holdings.
pub open spec fn sum_units(s: Seq<PropertyToken>) -> int
    decreases s.len(),
{
    if s.len() == 0 {
        0
    } else {
        sum_units(s.drop_last()) + s.last().amount
    }
}

/// Sum of a sequence of payout amounts.
pub open spec fn sum64(s: Seq<u64>) -> int
    decreases s.len(),
{
    if s.len() == 0 {
        0
    } else {
        sum64(s.drop_last()) + s.last()
    }
}

/// A holder's pro-rata payout: `floor(units * total_yield / supply)`.
pub open spec fn spec_payout(units: u64, total_yield: u64, supply: u64) -> int
    recommends
        supply > 0,
{
    (units * total_yield) / (supply as int)
}

/// Sum of the pro-rata payouts across a sequence of holdings.
pub open spec fn sum_payouts(s: Seq<PropertyToken>, total_yield: u64, supply: u64) -> int
    decreases s.len(),
{
    if s.len() == 0 {
        0
    } else {
        sum_payouts(s.drop_last(), total_yield, supply) + spec_payout(
            s.last().amount,
            total_yield,
            supply,
        )
    }
}

/// What a purchase of `amount` units costs: the per-unit price (the
/// property value divided evenly across the supply) times the amount.
pub open spec fn spec_purchase_cost(total_value: u64, token_supply: u64, amount: u64) -> int
    recommends
        token_supply > 0,
{
    (total_value as int / token_supply as int) * amount
}

proof fn lemma_sum_units_nonneg(s: Seq<PropertyToken>)
    ensures
        sum_units(s) >= 0,
    decreases s.len(),
{
    if s.len() > 0 {
        lemma_sum_units_nonneg(s.drop_last());
    }
}

/// Each holding's units are at most the sum over all holdings.
proof fn lemma_sum_units_element_bound(s: Seq<PropertyToken>, i: int)
    requires
        0 <= i < s.len(),
    ensures
        s[i].amount <= sum_units(s),
    decreases s.len(),
{
    if i == s.len() - 1 {
        lemma_sum_units_nonneg(s.drop_last());
    } else {
        lemma_sum_units_element_bound(s.drop_last(), i);
    }
}

/// Floor division distributes over addition with a loss of at most the
/// divisor: the sum of two floors never exceeds the floor of the sum.
proof fn lemma_div_sum_le(a: int, b: int, d: int)
    requires
        a >= 0,
        b >= 0,
        d > 0,
    ensures
        a / d + b / d <= (a + b) / d,
{
    lemma_fundamental_div_mod(a, d);
    lemma_fundamental_div_mod(b, d);
    lemma_fundamental_div_mod(a + b, d);
    let q = (a + b) / d - a / d - b / d;
    assert(d * q == a % d + b % d - (a + b) % d) by (nonlinear_arith)
        requires
            a == d * (a / d) + a % d,
            b == d * (b / d) + b % d,
            a + b == d * ((a + b) / d) + (a + b) % d,
            q == (a + b) / d - a / d - b / d,
    ;
    assert(q >= 0) by (nonlinear_arith)
        requires
            d > 0,
            d * q > -d,
    ;
}

/// A holder with no more units than the whole supply is paid at most the
/// whole yield.
proof fn lemma_payout_le(units: u64, total_yield: u64, supply: u64)
    requires
        supply > 0,
        units <= supply,
    ensures
        0 <= spec_payout(units, total_yield, supply) <= total_yield,
{
    lemma_mul_nonnegative(units as int, total_yield as int);
    lemma_div_pos_is_pos(units as int * total_yield as int, supply as int);
    lemma_mul_inequality(units as int, supply as int, total_yield as int);
    lemma_div_is_ordered(
        units as int * total_yield as int,
        supply as int * total_yield as int,
        supply as int,
    );
    lemma_div_multiples_vanish(total_yield as int, supply as int);
}

proof fn lemma_sum_payouts_bound(s: Seq<PropertyToken>, total_yield: u64, supply: u64)
    requires
        supply > 0,
    ensures
        0 <= sum_payouts(s, total_yield, supply) <= (sum_units(s) * total_yield) / (supply as int),
    decreases s.len(),
{
    if s.len() == 0 {
    } else {
        let front = s.drop_last();
        let u = s.last().amount;
        lemma_sum_payouts_bound(front, total_yield, supply);
        lemma_sum_units_nonneg(front);
        lemma_mul_nonnegative(sum_units(front), total_yield as int);
        lemma_mul_nonnegative(u as int, total_yield as int);
        lemma_div_pos_is_pos(u as int * total_yield as int, supply as int);
        lemma_div_sum_le(
            sum_units(front) * total_yield,
            u as int * total_yield as int,
            supply as int,
        );
        assert(sum_units(front) * total_yield + u as int * total_yield == (sum_units(front)
            + u as int) * total_yield) by (nonlinear_arith);
        assert(sum_units(s) == sum_units(front) + u as int);
    }
}

/// Pro-rata yield distribution never pays out more than the yield being
/// distributed: the rounding dust stays unassigned.
pub proof fn lemma_yield_payouts_bounded(s: Seq<PropertyToken>, total_yield: u64, supply: u64)
    requires
        supply > 0,
        sum_units(s) <= supply,
    ensures
        0 <= sum_payouts(s, total_yield, supply) <= total_yield,
{
    lemma_sum_payouts_bound(s, total_yield, supply);
    lemma_sum_units_nonneg(s);
    lemma_mul_inequality(sum_units(s), supply as int, total_yield as int);
    lemma_div_is_ordered(
        sum_units(s) * total_yield,
        supply as int * total_yield as int,
        supply as int,
    );
    lemma_div_multiples_vanish(total_yield as int, supply as int);
}

/// A sequence holding exactly the pro-rata payouts sums to the same total.
proof fn lemma_sum64_matches_payouts(
    payouts: Seq<u64>,
    s: Seq<PropertyToken>,
    total_yield: u64,
    supply: u64,
)
    requires
        payouts.len() == s.len(),
        forall|i: int|
            0 <= i < s.len() ==> payouts[i] == spec_payout(s[i].amount, total_yield, supply),
    ensures
        sum64(payouts) == sum_payouts(s, total_yield, supply),
    decreases s.len(),
{
    if s.len() > 0 {
        lemma_sum64_matches_payouts(payouts.drop_last(), s.drop_last(), total_yield, supply);
    }
}

/// Creates the property record: validates every field, then initializes the
/// slot with the full supply unsold and the invoking signer as owner.
pub fn process_create_property(
    property: &mut Property,
    signer: &[u8],
    property_id: &[u8],
    name: &[u8],
    address: &[u8],
    total_value: u64,
    token_supply: u64,
    yield_percentage: u8,
) -> (r: Result<(), ProcessError>)
    requires
        signer@.len() == 32,
        property_id@.len() == 32,
        name@.len() > 0 ==> name@.last() != 0,
        address@.len() > 0 ==> address@.last() != 0,
    ensures
        match r {
            Ok(()) => {
                &&& !old(property)@.is_initialized
                &&& spec_validate_property_data(
                    name@,
                    address@,
                    total_value,
                    token_supply,
                    yield_percentage,
                ) is Ok
                &&& final(property)@ == (PropertyView {
                    is_initialized: true,
                    owner: signer@,
                    property_id: property_id@,
                    name: name@,
                    address: address@,
                    total_value,
                    token_supply,
                    tokens_sold: 0,
                    yield_percentage,
                    last_yield_distribution: 0,
                })
                &&& final(property)@.valid()
            },
            Err(e) => {
                &&& *final(property) == *old(property)
                &&& (old(property)@.is_initialized || spec_validate_property_data(
                    name@,
                    address@,
                    total_value,
                    token_supply,
                    yield_percentage,
                ) is Err)
                &&& (e == ProcessError::AlreadyInitialized <==> old(property)@.is_initialized)
                &&& forall|v: ValidationError|
                    e == ProcessError::Validation(v) <==> !old(property)@.is_initialized
                        && spec_validate_property_data(
                        name@,
                        address@,
                        total_value,
                        token_supply,
                        yield_percentage,
                    ) == Err::<(), ValidationError>(v)
            },
        },
{
    if property.is_initialized {
        return Err(ProcessError::AlreadyInitialized);
    }
    match validate_property_data(name, address, total_value, token_supply, yield_percentage) {
        Ok(()) => {},
        Err(v) => {
            return Err(ProcessError::Validation(v));
        },
    }
    property.is_initialized = true;
    property.owner = slice_to_vec(signer);
    property.property_id = slice_to_vec(property_id);
    property.name = slice_to_vec(name);
    property.address = slice_to_vec(address);
    property.total_value = total_value;
    property.token_supply = token_supply;
    property.tokens_sold = 0;
    property.yield_percentage = yield_percentage;
    property.last_yield_distribution = 0;
    Ok(())
}

/// Settles a purchase of `amount` units against the property record and the
/// buyer's holding.  The returned cost — the per-unit price times the
/// amount — is what the host must collect from the buyer, against `amount`
/// units moved into the holding.  Units sold never exceed the supply.
pub fn process_purchase_tokens(
    property: &mut Property,
    holding: &mut PropertyToken,
    buyer: &[u8],
    amount: u64,
    now: u64,
) -> (r: Result<u64, ProcessError>)
    requires
        buyer@.len() == 32,
        old(property)@.is_initialized ==> old(property)@.valid(),
    ensures
        match r {
            Ok(cost) => {
                &&& old(property)@.is_initialized
                &&& amount <= old(property).token_supply - old(property).tokens_sold
                &&& cost == spec_purchase_cost(
                    old(property).total_value,
                    old(property).token_supply,
                    amount,
                )
                &&& final(property)@ == (PropertyView {
                    tokens_sold: (old(property).tokens_sold + amount) as u64,
                    ..old(property)@
                })
                &&& final(property)@.valid()
                &&& final(property).tokens_sold <= final(property).token_supply
                &&& final(holding)@ == if old(holding)@.is_initialized {
                    (PropertyTokenView {
                        amount: (old(holding).amount + amount) as u64,
                        purchase_price: (old(holding).purchase_price + cost) as u64,
                        ..old(holding)@
                    })
                } else {
                    (PropertyTokenView {
                        is_initialized: true,
                        property_id: old(property)@.property_id,
                        owner: buyer@,
                        amount,
                        purchase_price: cost as u64,
                        purchase_date: now,
                        last_yield_claim: now,
                    })
                }
            },
            Err(e) => {
                &&& *final(property) == *old(property)
                &&& *final(holding) == *old(holding)
                &&& (e == ProcessError::NotInitialized || e == ProcessError::InsufficientUnits || e
                    == ProcessError::ArithmeticOverflow)
                &&& (e == ProcessError::NotInitialized <==> !old(property)@.is_initialized)
                &&& (e == ProcessError::InsufficientUnits <==> old(property)@.is_initialized
                    && amount > old(property).token_supply - old(property).tokens_sold)
                &&& (e == ProcessError::ArithmeticOverflow <==> old(property)@.is_initialized
                    && amount <= old(property).token_supply - old(property).tokens_sold && old(holding)@.is_initialized && (old(holding).amount + amount > u64::MAX || old(holding).purchase_price + spec_purchase_cost(
                    old(property).total_value,
                    old(property).token_supply,
                    amount,
                ) > u64::MAX))
            },
        },
{
    if !property.is_initialized {
        return Err(ProcessError::NotInitialized);
    }
    let remaining = property.token_supply - property.tokens_sold;
    if amount > remaining {
        return Err(ProcessError::InsufficientUnits);
    }
    let price = property.total_value / property.token_supply;
    proof {
        lemma_fundamental_div_mod(property.total_value as int, property.token_supply as int);
        lemma_mul_inequality(amount as int, property.token_supply as int, price as int);
        assert(price as int * property.token_supply as int == property.token_supply as int
            * price as int) by (nonlinear_arith);
        assert(amount as int * price as int == price as int * amount as int) by (nonlinear_arith);
        lemma_mul_nonnegative(price as int, amount as int);
    }
    let cost = price * amount;
    if holding.is_initialized {
        let new_amount = match holding.amount.checked_add(amount) {
            Some(a) => a,
            None => {
                return Err(ProcessError::ArithmeticOverflow);
            },
        };
        let new_price = match holding.purchase_price.checked_add(cost) {
            Some(p) => p,
            None => {
                return Err(ProcessError::ArithmeticOverflow);
            },
        };
        holding.amount = new_amount;
        holding.purchase_price = new_price;
    } else {
        holding.is_initialized = true;
        holding.property_id = slice_to_vec(property.property_id.as_slice());
        holding.owner = slice_to_vec(buyer);
        holding.amount = amount;
        holding.purchase_price = cost;
        holding.purchase_date = now;
        holding.last_yield_claim = now;
    }
    property.tokens_sold = property.tokens_sold + amount;
    Ok(cost)
}

/// Computes every holder's pro-rata share of `total_yield` and stamps the
/// distribution time on the property and each holding.  The host performs
/// one value transfer per holder, each independently checked; the payouts
/// never sum to more than `total_yield`, and the rounding dust stays
/// unassigned.
pub fn process_distribute_yield(
    property: &mut Property,
    holdings: &mut Vec<PropertyToken>,
    total_yield: u64,
    now: u64,
) -> (r: Result<Vec<u64>, ProcessError>)
    requires
        old(property)@.is_initialized ==> old(property)@.valid() && sum_units(old(holdings)@) <= old(property).token_supply,
    ensures
        match r {
            Ok(payouts) => {
                &&& old(property)@.is_initialized
                &&& payouts@.len() == old(holdings)@.len()
                &&& forall|i: int|
                    0 <= i < old(holdings)@.len() ==> payouts@[i] == spec_payout(
                        old(holdings)@[i].amount,
                        total_yield,
                        old(property).token_supply,
                    )
                &&& sum64(payouts@) <= total_yield
                &&& final(holdings)@.len() == old(holdings)@.len()
                &&& forall|i: int|
                    0 <= i < old(holdings)@.len() ==> final(holdings)@[i]@
                        == (PropertyTokenView { last_yield_claim: now, ..old(holdings)@[i]@ })
                &&& final(property)@ == (PropertyView {
                    last_yield_distribution: now,
                    ..old(property)@
                })
            },
            Err(e) => {
                &&& e == ProcessError::NotInitialized
                &&& !old(property)@.is_initialized
                &&& *final(property) == *old(property)
                &&& *final(holdings) == *old(holdings)
            },
        },
{
    if !property.is_initialized {
        return Err(ProcessError::NotInitialized);
    }
    let supply = property.token_supply;
    let n = holdings.len();
    let mut payouts: Vec<u64> = Vec::new();
    let mut i: usize = 0;
    while i < n
        invariant
            i <= n,
            n == holdings@.len(),
            holdings@.len() == old(holdings)@.len(),
            payouts@.len() == i,
            supply == old(property).token_supply,
            supply > 0,
            sum_units(old(holdings)@) <= supply,
            *property == *old(property),
            forall|j: int| i <= j < n ==> holdings@[j] == old(holdings)@[j],
            forall|j: int|
                0 <= j < i ==> holdings@[j]@ == (PropertyTokenView {
                    last_yield_claim: now,
                    ..old(holdings)@[j]@
                }),
            forall|j: int|
                0 <= j < i ==> payouts@[j] == spec_payout(
                    old(holdings)@[j].amount,
                    total_yield,
                    supply,
                ),
        decreases n - i,
    {
        let mut h = PropertyToken {
            is_initialized: false,
            property_id: Vec::new(),
            owner: Vec::new(),
            amount: 0,
            purchase_price: 0,
            purchase_date: 0,
            last_yield_claim: 0,
        };
        holdings.set_and_swap(i, &mut h);
        proof {
            lemma_sum_units_element_bound(old(holdings)@, i as int);
            lemma_payout_le(h.amount, total_yield, supply);
            lemma_mul_upper_bound(
                h.amount as int,
                u64::MAX as int,
                total_yield as int,
                u64::MAX as int,
            );
        }
        let pay_wide = (h.amount as u128) * (total_yield as u128) / (supply as u128);
        let pay = pay_wide as u64;
        payouts.push(pay);
        h.last_yield_claim = now;
        holdings.set(i, h);
        i = i + 1;
    }
    proof {
        lemma_sum64_matches_payouts(payouts@, old(holdings)@, total_yield, supply);
        lemma_yield_payouts_bounded(old(holdings)@, total_yield, supply);
    }
    property.last_yield_distribution = now;
    Ok(payouts)
}

/// Updates the property valuation after a revaluation.  Only the owner may
/// revalue, and the new value must be strictly positive.
pub fn process_update_property_value(
    property: &mut Property,
    signer: &[u8],
    new_value: u64,
) -> (r: Result<(), ProcessError>)
    ensures
        match r {
            Ok(()) => {
                &&& old(property)@.is_initialized
                &&& old(property)@.owner == signer@
                &&& new_value > 0
                &&& final(property)@ == (PropertyView { total_value: new_value, ..old(property)@ })
            },
            Err(e) => {
                &&& *final(property) == *old(property)
                &&& (!old(property)@.is_initialized || old(property)@.owner != signer@ || new_value
                    == 0)
                &&& (e == ProcessError::NotInitialized <==> !old(property)@.is_initialized)
                &&& (e == ProcessError::Unauthorized <==> old(property)@.is_initialized && old(property)@.owner != signer@)
                &&& (e == ProcessError::Validation(ValidationError::ValueZero) <==> old(property)@.is_initialized && old(property)@.owner == signer@ && new_value == 0)
            },
        },
{
    if !property.is_initialized {
        return Err(ProcessError::NotInitialized);
    }
    if !ids_equal(property.owner.as_slice(), signer) {
        return Err(ProcessError::Unauthorized);
    }
    if new_value == 0 {
        return Err(ProcessError::Validation(ValidationError::ValueZero));
    }
    property.total_value = new_value;
    Ok(())
}

/// Decodes one instruction and applies it: create property, purchase
/// units against the buyer's holding, distribute yield across all
/// holdings, or update the valuation.  The returned outcome names the
/// transfers the host must perform; a rejected invocation reports its
/// error and leaves every record unchanged.
pub fn process_instruction(
    property: &mut Property,
    holding: &mut PropertyToken,
    holdings: &mut Vec<PropertyToken>,
    signer: &[u8],
    instruction_data: &[u8],
    now: u64,
) -> (r: Result<ProcessOutcome, ProcessError>)
    requires
        signer@.len() == 32,
        old(property)@.is_initialized ==> old(property)@.valid() && sum_units(old(holdings)@) <= old(property).token_supply,
    ensures
        r is Err ==> *final(property) == *old(property) && *final(holding) == *old(holding)
            && *final(holdings) == *old(holdings),
        match spec_unpack(instruction_data@) {
            Err(_) => r == Err::<ProcessOutcome, ProcessError>(
                ProcessError::InvalidInstructionData,
            ),
            Ok(cmd) => match cmd {
                PropertyInstructionView::CreateProperty {
                    property_id,
                    name,
                    address,
                    total_value,
                    token_supply,
                    yield_percentage,
                } => {
                    &&& (r is Ok <==> !old(property)@.is_initialized
                        && spec_validate_property_data(
                        name,
                        address,
                        total_value,
                        token_supply,
                        yield_percentage,
                    ) is Ok)
                    &&& (r matches Ok(o) ==> o == ProcessOutcome::Created && final(property)@
                        == (PropertyView {
                        is_initialized: true,
                        owner: signer@,
                        property_id,
                        name,
                        address,
                        total_value,
                        token_supply,
                        tokens_sold: 0,
                        yield_percentage,
                        last_yield_distribution: 0,
                    }) && *final(holding) == *old(holding) && *final(holdings) == *old(holdings))
                },
                PropertyInstructionView::PurchaseTokens { amount } => {
                    &&& (r matches Ok(o) ==> old(property)@.is_initialized && amount <= old(property).token_supply - old(property).tokens_sold && o == (ProcessOutcome::Purchased {
                        units: amount,
                        cost: spec_purchase_cost(
                            old(property).total_value,
                            old(property).token_supply,
                            amount,
                        ) as u64,
                    }) && final(property)@ == (PropertyView {
                        tokens_sold: (old(property).tokens_sold + amount) as u64,
                        ..old(property)@
                    }) && final(property)@.valid() && *final(holdings) == *old(holdings))
                    &&& (r matches Err(e) ==> (e == ProcessError::NotInitialized <==> !old(property)@.is_initialized) && (e == ProcessError::InsufficientUnits <==> old(property)@.is_initialized && amount > old(property).token_supply - old(property).tokens_sold))
                },
                PropertyInstructionView::DistributeYield { amount } => {
                    &&& (r is Ok <==> old(property)@.is_initialized)
                    &&& (r matches Ok(o) ==> o matches ProcessOutcome::YieldDistributed { payouts }
                        && payouts@.len() == old(holdings)@.len() && (forall|i: int|
                        0 <= i < old(holdings)@.len() ==> payouts@[i] == spec_payout(
                            old(holdings)@[i].amount,
                            amount,
                            old(property).token_supply,
                        )) && sum64(payouts@) <= amount && final(property)@ == (PropertyView {
                        last_yield_distribution: now,
                        ..old(property)@
                    }) && (forall|i: int|
                        0 <= i < old(holdings)@.len() ==> final(holdings)@[i]@
                            == (PropertyTokenView {
                            last_yield_claim: now,
                            ..old(holdings)@[i]@
                        })) && final(holdings)@.len() == old(holdings)@.len() && *final(holding)
                        == *old(holding))
                },
                PropertyInstructionView::UpdatePropertyValue { new_value } => {
                    &&& (r is Ok <==> old(property)@.is_initialized && old(property)@.owner
                        == signer@ && new_value > 0)
                    &&& (r matches Ok(o) ==> o == ProcessOutcome::ValueUpdated && final(property)@
                        == (PropertyView { total_value: new_value, ..old(property)@ }) && *final(holding) == *old(holding) && *final(holdings) == *old(holdings))
                },
            },
        },
{
    let instruction = match PropertyInstruction::unpack(instruction_data) {
        Ok(i) => i,
        Err(_) => {
            return Err(ProcessError::InvalidInstructionData);
        },
    };
    match instruction {
        PropertyInstruction::CreateProperty {
            property_id,
            name,
            address,
            total_value,
            token_supply,
            yield_percentage,
        } => {
            proof {
                crate::instruction::lemma_unpack_create_text_wf(instruction_data@);
            }
            match process_create_property(
                property,
                signer,
                property_id.as_slice(),
                name.as_slice(),
                address.as_slice(),
                total_value,
                token_supply,
                yield_percentage,
            ) {
                Ok(()) => Ok(ProcessOutcome::Created),
                Err(e) => Err(e),
            }
        },
        PropertyInstruction::PurchaseTokens { amount } => {
            match process_purchase_tokens(property, holding, signer, amount, now) {
                Ok(cost) => Ok(ProcessOutcome::Purchased { units: amount, cost }),
                Err(e) => Err(e),
            }
        },
        PropertyInstruction::DistributeYield { amount } => {
            match process_distribute_yield(property, holdings, amount, now) {
                Ok(payouts) => Ok(ProcessOutcome::YieldDistributed { payouts }),
                Err(e) => Err(e),
            }
        },
        PropertyInstruction::UpdatePropertyValue { new_value } => {
            match process_update_property_value(property, signer, new_value) {
                Ok(()) => Ok(ProcessOutcome::ValueUpdated),
                Err(e) => Err(e),
            }
        },
    }
}

} // verus!
