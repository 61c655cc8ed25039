//! The registry program: registered verifiers attest to the legitimacy of
//! property records through a monotonic verification workflow.
//!
//! The workflow's states move forward only: `Pending` and `InProgress`
//! records may be attested `Verified` or `Rejected` by an active verifier;
//! the registry authority may override the status of any non-terminal
//! record (which is how a `Verified` record becomes `Expired` once its
//! recorded expiry has passed — nothing flips it automatically).
//! `Rejected` and `Expired` are terminal: no transition leaves them.

use crate::utils::ids_equal;
use vstd::prelude::*;
use vstd::slice::slice_to_vec;

verus! {

/// The registry's master record: its authority and counters.
#[derive(Clone, Debug, PartialEq, Eq)]
pub struct Registry {
    /// Identity allowed to manage verifiers and override statuses (32 bytes).
    pub authority: Vec<u8>,
    pub property_count: u64,
    pub verifier_count: u64,
    pub created_at: i64,
    pub updated_at: i64,
}

/// A registered verifier.
#[derive(Clone, Debug, PartialEq, Eq)]
pub struct Verifier {
    /// Identity that signs this verifier's attestations (32 bytes).
    pub authority: Vec<u8>,
    pub name: String,
    pub url: String,
    /// Inactive verifiers keep their history but may not attest.
    pub is_active: bool,
    pub verified_properties: u64,
    pub created_at: i64,
    pub updated_at: i64,
}

/// A property's registration and attestation record.
#[derive(Clone, Debug, PartialEq, Eq)]
pub struct PropertyRecord {
    pub property_id: String,
    /// The unit-denominated asset reference (32 bytes).
    pub token_mint: Vec<u8>,
    /// Identity of the registering owner (32 bytes).
    pub owner: Vec<u8>,
    pub address: String,
    pub legal_details: LegalDetails,
    pub verification_status: VerificationStatus,
    pub verification_details: Option<VerificationDetails>,
    /// Identity of the attesting verifier, once one has attested (32 bytes).
    pub verifier: Option<Vec<u8>>,
    pub verified_at: Option<i64>,
    pub created_at: i64,
    pub updated_at: i64,
}

/// Legal facts about a registered property; carried along, never
/// interpreted by the engine.
#[derive(Clone, Debug, PartialEq, Eq)]
pub struct LegalDetails {
    pub title_deed_url: String,
    pub owner_name: String,
    pub owner_id: String,
    pub legal_description: String,
    pub jurisdiction: String,
    pub property_type: String,
    pub zoning: String,
    pub last_sale_date: i64,
    pub last_sale_amount: u64,
}

/// What a verifier records when attesting.
#[derive(Clone, Debug, PartialEq, Eq)]
pub struct VerificationDetails {
    pub verification_date: i64,
    pub verification_method: String,
    pub verification_notes: String,
    pub is_legal_compliance_verified: bool,
    pub is_property_condition_verified: bool,
    pub is_valuation_verified: bool,
    /// When the attestation lapses; enforcing it takes an explicit
    /// authority-driven status override to `Expired`.
    pub verification_expiry: i64,
}

#[derive(Clone, Copy, Debug, PartialEq, Eq, Structural)]
pub enum VerificationStatus {
    Pending,
    InProgress,
    Verified,
    Rejected,
    Expired,
}

#[derive(Clone, Copy, Debug, PartialEq, Eq, Structural)]
pub enum RegistryError {
    Unauthorized,
    ArithmeticError,
    VerifierNotActive,
    /// The record is in a state the requested transition may not leave.
    InvalidStatusTransition,
}

/// Terminal workflow states: no transition leaves them.
pub open spec fn is_terminal(s: VerificationStatus) -> bool {
    s == VerificationStatus::Rejected || s == VerificationStatus::Expired
}

/// States from which a verifier may attest a record.
pub open spec fn verifier_can_attest(s: VerificationStatus) -> bool {
    s == VerificationStatus::Pending || s == VerificationStatus::InProgress
}

/// Creates the registry record with empty counters.
pub fn initialize_registry(authority: &[u8], now: i64) -> (r: Registry)
    ensures
        r.authority@ == authority@,
        r.property_count == 0,
        r.verifier_count == 0,
        r.created_at == now,
        r.updated_at == now,
{
    Registry {
        authority: slice_to_vec(authority),
        property_count: 0,
        verifier_count: 0,
        created_at: now,
        updated_at: now,
    }
}

/// Registers (or re-activates) a verifier.  Only the registry authority may
/// add verifiers; the new verifier attests with that same authority's
/// signature.
pub fn add_verifier(
    registry: &mut Registry,
    verifier_account: &mut Verifier,
    authority: &[u8],
    verifier_name: String,
    verifier_url: String,
    now: i64,
) -> (r: Result<(), RegistryError>)
    ensures
        match r {
            Ok(()) => {
                &&& old(registry).authority@ == authority@
                &&& old(registry).verifier_count < u64::MAX
                &&& final(verifier_account).authority@ == authority@
                &&& final(verifier_account).name == verifier_name
                &&& final(verifier_account).url == verifier_url
                &&& final(verifier_account).is_active == true
                &&& final(verifier_account).verified_properties == 0
                &&& final(verifier_account).created_at == now
                &&& final(verifier_account).updated_at == now
                &&& final(registry).verifier_count == old(registry).verifier_count + 1
                &&& final(registry).updated_at == now
                &&& final(registry).authority == old(registry).authority
                &&& final(registry).property_count == old(registry).property_count
                &&& final(registry).created_at == old(registry).created_at
            },
            Err(e) => {
                &&& *final(registry) == *old(registry)
                &&& *final(verifier_account) == *old(verifier_account)
                &&& (e == RegistryError::Unauthorized || e == RegistryError::ArithmeticError)
                &&& (e == RegistryError::Unauthorized <==> old(registry).authority@ != authority@)
                &&& (e == RegistryError::ArithmeticError <==> old(registry).authority@
                    == authority@ && old(registry).verifier_count == u64::MAX)
            },
        },
{
    if !ids_equal(registry.authority.as_slice(), authority) {
        return Err(RegistryError::Unauthorized);
    }
    if registry.verifier_count == u64::MAX {
        return Err(RegistryError::ArithmeticError);
    }
    verifier_account.authority = slice_to_vec(authority);
    verifier_account.name = verifier_name;
    verifier_account.url = verifier_url;
    verifier_account.is_active = true;
    verifier_account.verified_properties = 0;
    verifier_account.created_at = now;
    verifier_account.updated_at = now;
    registry.verifier_count = registry.verifier_count + 1;
    registry.updated_at = now;
    Ok(())
}

/// Deactivates a verifier, keeping its history.  Only the registry
/// authority may remove verifiers.
pub fn remove_verifier(
    registry: &mut Registry,
    verifier_account: &mut Verifier,
    authority: &[u8],
    now: i64,
) -> (r: Result<(), RegistryError>)
    ensures
        match r {
            Ok(()) => {
                &&& old(registry).authority@ == authority@
                &&& old(registry).verifier_count >= 1
                &&& final(verifier_account).is_active == false
                &&& final(verifier_account).updated_at == now
                &&& final(verifier_account).authority == old(verifier_account).authority
                &&& final(verifier_account).name == old(verifier_account).name
                &&& final(verifier_account).url == old(verifier_account).url
                &&& final(verifier_account).verified_properties == old(verifier_account).verified_properties
                &&& final(verifier_account).created_at == old(verifier_account).created_at
                &&& final(registry).verifier_count == old(registry).verifier_count - 1
                &&& final(registry).updated_at == now
                &&& final(registry).authority == old(registry).authority
                &&& final(registry).property_count == old(registry).property_count
                &&& final(registry).created_at == old(registry).created_at
            },
            Err(e) => {
                &&& *final(registry) == *old(registry)
                &&& *final(verifier_account) == *old(verifier_account)
                &&& (e == RegistryError::Unauthorized || e == RegistryError::ArithmeticError)
                &&& (e == RegistryError::Unauthorized <==> old(registry).authority@ != authority@)
                &&& (e == RegistryError::ArithmeticError <==> old(registry).authority@
                    == authority@ && old(registry).verifier_count == 0)
            },
        },
{
    if !ids_equal(registry.authority.as_slice(), authority) {
        return Err(RegistryError::Unauthorized);
    }
    if registry.verifier_count == 0 {
        return Err(RegistryError::ArithmeticError);
    }
    verifier_account.is_active = false;
    verifier_account.updated_at = now;
    registry.verifier_count = registry.verifier_count - 1;
    registry.updated_at = now;
    Ok(())
}

/// Registers a property for verification.  The new record starts `Pending`
/// with no attestation.
pub fn register_property(
    registry: &mut Registry,
    owner: &[u8],
    token_mint: &[u8],
    property_id: String,
    property_address: String,
    legal_details: LegalDetails,
    now: i64,
) -> (r: Result<PropertyRecord, RegistryError>)
    ensures
        match r {
            Ok(rec) => {
                &&& old(registry).property_count < u64::MAX
                &&& rec.property_id == property_id
                &&& rec.token_mint@ == token_mint@
                &&& rec.owner@ == owner@
                &&& rec.address == property_address
                &&& rec.legal_details == legal_details
                &&& rec.verification_status == VerificationStatus::Pending
                &&& rec.verification_details is None
                &&& rec.verifier is None
                &&& rec.verified_at is None
                &&& rec.created_at == now
                &&& rec.updated_at == now
                &&& final(registry).property_count == old(registry).property_count + 1
                &&& final(registry).updated_at == now
                &&& final(registry).authority == old(registry).authority
                &&& final(registry).verifier_count == old(registry).verifier_count
                &&& final(registry).created_at == old(registry).created_at
            },
            Err(e) => {
                &&& *final(registry) == *old(registry)
                &&& e == RegistryError::ArithmeticError
                &&& old(registry).property_count == u64::MAX
            },
        },
{
    if registry.property_count == u64::MAX {
        return Err(RegistryError::ArithmeticError);
    }
    registry.property_count = registry.property_count + 1;
    registry.updated_at = now;
    Ok(
        PropertyRecord {
            property_id,
            token_mint: slice_to_vec(token_mint),
            owner: slice_to_vec(owner),
            address: property_address,
            legal_details,
            verification_status: VerificationStatus::Pending,
            verification_details: None,
            verifier: None,
            verified_at: None,
            created_at: now,
            updated_at: now,
        },
    )
}

/// Records a verifier's attestation: `Verified` when approved, `Rejected`
/// otherwise, together with the details, the verifier's identity and the
/// attestation time.  Only an active verifier signing with its own
/// authority may attest, and only on a record still `Pending` or
/// `InProgress`.
pub fn verify_property(
    registry: &mut Registry,
    property_record: &mut PropertyRecord,
    verifier: &mut Verifier,
    verifier_authority: &[u8],
    verification_details: VerificationDetails,
    approved: bool,
    now: i64,
) -> (r: Result<(), RegistryError>)
    ensures
        match r {
            Ok(()) => {
                &&& old(verifier).is_active
                &&& old(verifier).authority@ == verifier_authority@
                &&& verifier_can_attest(old(property_record).verification_status)
                &&& old(verifier).verified_properties < u64::MAX
                &&& final(property_record).verification_status == if approved {
                    VerificationStatus::Verified
                } else {
                    VerificationStatus::Rejected
                }
                &&& final(property_record).verification_details == Some(verification_details)
                &&& final(property_record).verifier matches Some(v) && v@ == old(verifier).authority@
                &&& final(property_record).verified_at == Some(now)
                &&& final(property_record).updated_at == now
                &&& final(property_record).property_id == old(property_record).property_id
                &&& final(property_record).token_mint == old(property_record).token_mint
                &&& final(property_record).owner == old(property_record).owner
                &&& final(property_record).address == old(property_record).address
                &&& final(property_record).legal_details == old(property_record).legal_details
                &&& final(property_record).created_at == old(property_record).created_at
                &&& final(verifier).verified_properties == old(verifier).verified_properties + 1
                &&& final(verifier).updated_at == now
                &&& final(verifier).authority == old(verifier).authority
                &&& final(verifier).name == old(verifier).name
                &&& final(verifier).url == old(verifier).url
                &&& final(verifier).is_active == old(verifier).is_active
                &&& final(verifier).created_at == old(verifier).created_at
                &&& final(registry).updated_at == now
                &&& final(registry).authority == old(registry).authority
                &&& final(registry).property_count == old(registry).property_count
                &&& final(registry).verifier_count == old(registry).verifier_count
                &&& final(registry).created_at == old(registry).created_at
            },
            Err(e) => {
                &&& *final(registry) == *old(registry)
                &&& *final(property_record) == *old(property_record)
                &&& *final(verifier) == *old(verifier)
                &&& (e == RegistryError::VerifierNotActive <==> !old(verifier).is_active)
                &&& (e == RegistryError::Unauthorized <==> old(verifier).is_active && old(verifier).authority@ != verifier_authority@)
                &&& (e == RegistryError::InvalidStatusTransition <==> old(verifier).is_active
                    && old(verifier).authority@ == verifier_authority@ && !verifier_can_attest(
                    old(property_record).verification_status,
                ))
                &&& (e == RegistryError::ArithmeticError <==> old(verifier).is_active && old(verifier).authority@ == verifier_authority@ && verifier_can_attest(
                    old(property_record).verification_status,
                ) && old(verifier).verified_properties == u64::MAX)
            },
        },
{
    if !verifier.is_active {
        return Err(RegistryError::VerifierNotActive);
    }
    if !ids_equal(verifier.authority.as_slice(), verifier_authority) {
        return Err(RegistryError::Unauthorized);
    }
    let attestable = match property_record.verification_status {
        VerificationStatus::Pending => true,
        VerificationStatus::InProgress => true,
        _ => false,
    };
    if !attestable {
        return Err(RegistryError::InvalidStatusTransition);
    }
    if verifier.verified_properties == u64::MAX {
        return Err(RegistryError::ArithmeticError);
    }
    property_record.verification_status = if approved {
        VerificationStatus::Verified
    } else {
        VerificationStatus::Rejected
    };
    property_record.verification_details = Some(verification_details);
    property_record.verifier = Some(verifier.authority.clone());
    property_record.verified_at = Some(now);
    property_record.updated_at = now;
    verifier.verified_properties = verifier.verified_properties + 1;
    verifier.updated_at = now;
    registry.updated_at = now;
    Ok(())
}

/// An authority-driven status override.  Only the registry authority may
/// override, and terminal records (`Rejected`, `Expired`) cannot be left:
/// this is also the only way a `Verified` record becomes `Expired`.
pub fn update_property_status(
    registry: &mut Registry,
    property_record: &mut PropertyRecord,
    authority: &[u8],
    status: VerificationStatus,
    now: i64,
) -> (r: Result<(), RegistryError>)
    ensures
        match r {
            Ok(()) => {
                &&& old(registry).authority@ == authority@
                &&& !is_terminal(old(property_record).verification_status)
                &&& final(property_record).verification_status == status
                &&& final(property_record).updated_at == now
                &&& final(property_record).property_id == old(property_record).property_id
                &&& final(property_record).token_mint == old(property_record).token_mint
                &&& final(property_record).owner == old(property_record).owner
                &&& final(property_record).address == old(property_record).address
                &&& final(property_record).legal_details == old(property_record).legal_details
                &&& final(property_record).verification_details == old(property_record).verification_details
                &&& final(property_record).verifier == old(property_record).verifier
                &&& final(property_record).verified_at == old(property_record).verified_at
                &&& final(property_record).created_at == old(property_record).created_at
                &&& final(registry).updated_at == now
                &&& final(registry).authority == old(registry).authority
                &&& final(registry).property_count == old(registry).property_count
                &&& final(registry).verifier_count == old(registry).verifier_count
                &&& final(registry).created_at == old(registry).created_at
            },
            Err(e) => {
                &&& *final(registry) == *old(registry)
                &&& *final(property_record) == *old(property_record)
                &&& (e == RegistryError::Unauthorized || e
                    == RegistryError::InvalidStatusTransition)
                &&& (e == RegistryError::Unauthorized <==> old(registry).authority@ != authority@)
                &&& (e == RegistryError::InvalidStatusTransition <==> old(registry).authority@
                    == authority@ && is_terminal(old(property_record).verification_status))
            },
        },
{
    if !ids_equal(registry.authority.as_slice(), authority) {
        return Err(RegistryError::Unauthorized);
    }
    let terminal = match property_record.verification_status {
        VerificationStatus::Rejected => true,
        VerificationStatus::Expired => true,
        _ => false,
    };
    if terminal {
        return Err(RegistryError::InvalidStatusTransition);
    }
    property_record.verification_status = status;
    property_record.updated_at = now;
    registry.updated_at = now;
    Ok(())
}

} // verus!
