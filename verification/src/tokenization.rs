//! The property tokenization program: one record per asset offered for
//! fractional ownership, with purchase settlement and owner-gated updates.

use crate::utils::ids_equal;
use vstd::prelude::*;
use vstd::slice::slice_to_vec;

verus! {

/// A property offered for fractional ownership.
#[derive(Clone, Debug, PartialEq, Eq)]
pub struct Property {
    /// Identity of the property owner (32 bytes).
    pub owner: Vec<u8>,
    /// The unit-denominated asset reference for this property (32 bytes).
    pub mint: Vec<u8>,
    pub property_id: String,
    pub property_uri: String,
    /// Units issued in all.
    pub total_tokens: u64,
    /// Units still unsold; decreases as purchases settle.
    pub available_tokens: u64,
    /// Price of one unit.
    pub token_price: u64,
    pub status: PropertyStatus,
    pub details: PropertyDetails,
    pub created_at: i64,
    pub updated_at: i64,
}

#[derive(Clone, Copy, Debug, PartialEq, Eq, Structural)]
pub enum PropertyStatus {
    Available,
    Pending,
    Sold,
}

/// Descriptive attributes of a property; carried along, never interpreted
/// by the engine.
#[derive(Clone, Debug, PartialEq, Eq)]
pub struct PropertyDetails {
    pub title: String,
    pub description: String,
    pub address: String,
    pub city: String,
    pub state_name: String,
    pub country: String,
    pub zip_code: String,
    pub property_type: String,
    pub square_feet: u32,
    pub bedrooms: u8,
    pub bathrooms: u8,
    pub year_built: u16,
    /// Expected rental yield in basis points.
    pub rent_yield: u16,
    /// Expected appreciation in basis points.
    pub appreciation_potential: u16,
}

#[derive(Clone, Copy, Debug, PartialEq, Eq, Structural)]
pub enum PropertyError {
    PropertyNotAvailable,
    InsufficientTokens,
    ArithmeticError,
    Unauthorized,
}

/// Creates the record of a newly tokenized property: the full supply is
/// available, the status is `Available`, and the creator is the owner.
pub fn initialize_property(
    owner: &[u8],
    mint: &[u8],
    property_id: String,
    property_uri: String,
    total_tokens: u64,
    token_price: u64,
    property_details: PropertyDetails,
    now: i64,
) -> (p: Property)
    ensures
        p.owner@ == owner@,
        p.mint@ == mint@,
        p.property_id == property_id,
        p.property_uri == property_uri,
        p.total_tokens == total_tokens,
        p.available_tokens == total_tokens,
        p.token_price == token_price,
        p.status == PropertyStatus::Available,
        p.details == property_details,
        p.created_at == now,
        p.updated_at == now,
{
    Property {
        owner: slice_to_vec(owner),
        mint: slice_to_vec(mint),
        property_id,
        property_uri,
        total_tokens,
        available_tokens: total_tokens,
        token_price,
        status: PropertyStatus::Available,
        details: property_details,
        created_at: now,
        updated_at: now,
    }
}

/// Settles a purchase of `amount` units.  Succeeds exactly when the
/// property is available and `amount` does not exceed the unsold units; the
/// returned value is the number of units the host must transfer to the
/// buyer.  When the last unit sells, the property moves to its terminal
/// `Sold` state — and only then.
pub fn purchase_tokens(property: &mut Property, amount: u64, now: i64) -> (r: Result<
    u64,
    PropertyError,
>)
    ensures
        match r {
            Ok(units) => {
                &&& old(property).status == PropertyStatus::Available
                &&& amount <= old(property).available_tokens
                &&& units == amount
                &&& final(property).available_tokens == old(property).available_tokens - amount
                &&& (final(property).status == PropertyStatus::Sold <==> final(property).available_tokens == 0)
                &&& (final(property).available_tokens > 0 ==> final(property).status
                    == PropertyStatus::Available)
                &&& (old(property).available_tokens <= old(property).total_tokens ==> final(property).available_tokens <= final(property).total_tokens)
                &&& final(property).updated_at == now
                &&& final(property).owner == old(property).owner
                &&& final(property).mint == old(property).mint
                &&& final(property).property_id == old(property).property_id
                &&& final(property).property_uri == old(property).property_uri
                &&& final(property).total_tokens == old(property).total_tokens
                &&& final(property).token_price == old(property).token_price
                &&& final(property).details == old(property).details
                &&& final(property).created_at == old(property).created_at
            },
            Err(e) => {
                &&& *final(property) == *old(property)
                &&& (e == PropertyError::PropertyNotAvailable || e
                    == PropertyError::InsufficientTokens)
                &&& (e == PropertyError::PropertyNotAvailable <==> old(property).status
                    != PropertyStatus::Available)
                &&& (e == PropertyError::InsufficientTokens <==> old(property).status
                    == PropertyStatus::Available && amount > old(property).available_tokens)
            },
        },
{
    if property.status != PropertyStatus::Available {
        return Err(PropertyError::PropertyNotAvailable);
    }
    if amount > property.available_tokens {
        return Err(PropertyError::InsufficientTokens);
    }
    property.available_tokens = property.available_tokens - amount;
    if property.available_tokens == 0 {
        property.status = PropertyStatus::Sold;
    }
    property.updated_at = now;
    Ok(amount)
}

/// Replaces the descriptive details of a property.  Only the owner may do
/// so; a rejected attempt changes nothing.
pub fn update_property_details(
    property: &mut Property,
    owner: &[u8],
    property_details: PropertyDetails,
    now: i64,
) -> (r: Result<(), PropertyError>)
    ensures
        match r {
            Ok(()) => {
                &&& old(property).owner@ == owner@
                &&& final(property).details == property_details
                &&& final(property).updated_at == now
                &&& final(property).owner == old(property).owner
                &&& final(property).mint == old(property).mint
                &&& final(property).property_id == old(property).property_id
                &&& final(property).property_uri == old(property).property_uri
                &&& final(property).total_tokens == old(property).total_tokens
                &&& final(property).available_tokens == old(property).available_tokens
                &&& final(property).token_price == old(property).token_price
                &&& final(property).status == old(property).status
                &&& final(property).created_at == old(property).created_at
            },
            Err(e) => {
                &&& *final(property) == *old(property)
                &&& e == PropertyError::Unauthorized
                &&& old(property).owner@ != owner@
            },
        },
{
    if !ids_equal(property.owner.as_slice(), owner) {
        return Err(PropertyError::Unauthorized);
    }
    property.details = property_details;
    property.updated_at = now;
    Ok(())
}

/// Sets the listing status of a property.  Only the owner may do so; a
/// rejected attempt changes nothing.
pub fn update_property_status(
    property: &mut Property,
    owner: &[u8],
    status: PropertyStatus,
    now: i64,
) -> (r: Result<(), PropertyError>)
    ensures
        match r {
            Ok(()) => {
                &&& old(property).owner@ == owner@
                &&& final(property).status == status
                &&& final(property).updated_at == now
                &&& final(property).owner == old(property).owner
                &&& final(property).mint == old(property).mint
                &&& final(property).property_id == old(property).property_id
                &&& final(property).property_uri == old(property).property_uri
                &&& final(property).total_tokens == old(property).total_tokens
                &&& final(property).available_tokens == old(property).available_tokens
                &&& final(property).token_price == old(property).token_price
                &&& final(property).details == old(property).details
                &&& final(property).created_at == old(property).created_at
            },
            Err(e) => {
                &&& *final(property) == *old(property)
                &&& e == PropertyError::Unauthorized
                &&& old(property).owner@ != owner@
            },
        },
{
    if !ids_equal(property.owner.as_slice(), owner) {
        return Err(PropertyError::Unauthorized);
    }
    property.status = status;
    property.updated_at = now;
    Ok(())
}

} // verus!
