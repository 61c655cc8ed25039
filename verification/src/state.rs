//! Fixed-layout ledger records of the tokenization program and their codec.
//!
//! `Property` occupies exactly 290 bytes, `PropertyToken` exactly 97; byte
//! offsets are part of the wire contract.  Identity fields are opaque
//! 32-byte values, numeric fields are little-endian, text fields are stored
//! zero-padded in fixed-size buffers.  Decoding rejects a buffer shorter
//! than the record's fixed length and ignores trailing bytes beyond it.

use crate::codec::{
    lemma_strip_pad, lemma_strip_wf, read_bytes, read_flag, read_text, read_u64_le, spec_pad,
    spec_strip, text_wf, write_bytes, write_text, write_u64_le, DecodeError,
};
use vstd::bytes::{
    lemma_auto_spec_u64_to_from_le_bytes, spec_u64_from_le_bytes, spec_u64_to_le_bytes,
};
use vstd::prelude::*;

verus! {

/// Fixed encoded length of a `Property` record.
pub const PROPERTY_LEN: usize = 290;

/// Fixed encoded length of a `PropertyToken` record.
pub const PROPERTY_TOKEN_LEN: usize = 97;

/// A tokenized property: the master record of one asset.
#[derive(Clone, Debug, PartialEq, Eq)]
pub struct Property {
    pub is_initialized: bool,
    /// Identity of the property owner (32 bytes).
    pub owner: Vec<u8>,
    /// Opaque property identifier (32 bytes).
    pub property_id: Vec<u8>,
    /// Human-readable name; at most 64 bytes, no trailing zero byte.
    pub name: Vec<u8>,
    /// Street address; at most 128 bytes, no trailing zero byte.
    pub address: Vec<u8>,
    pub total_value: u64,
    pub token_supply: u64,
    pub tokens_sold: u64,
    /// Rental yield percentage, 0 to 100.
    pub yield_percentage: u8,
    /// Unix timestamp of the last yield distribution.
    pub last_yield_distribution: u64,
}

/// Mathematical image of a `Property`.
pub ghost struct PropertyView {
    pub is_initialized: bool,
    pub owner: Seq<u8>,
    pub property_id: Seq<u8>,
    pub name: Seq<u8>,
    pub address: Seq<u8>,
    pub total_value: u64,
    pub token_supply: u64,
    pub tokens_sold: u64,
    pub yield_percentage: u8,
    pub last_yield_distribution: u64,
}

impl View for Property {
    type V = PropertyView;

    open spec fn view(&self) -> PropertyView {
        PropertyView {
            is_initialized: self.is_initialized,
            owner: self.owner@,
            property_id: self.property_id@,
            name: self.name@,
            address: self.address@,
            total_value: self.total_value,
            token_supply: self.token_supply,
            tokens_sold: self.tokens_sold,
            yield_percentage: self.yield_percentage,
            last_yield_distribution: self.last_yield_distribution,
        }
    }
}

impl PropertyView {
    /// Structural well-formedness: field sizes fit the fixed layout.
    pub open spec fn wf(self) -> bool {
        &&& self.owner.len() == 32
        &&& self.property_id.len() == 32
        &&& text_wf(self.name, 64)
        &&& text_wf(self.address, 128)
    }

    /// Business invariants of a live property record.
    pub open spec fn valid(self) -> bool {
        &&& self.wf()
        &&& self.tokens_sold <= self.token_supply
        &&& self.yield_percentage <= 100
        &&& self.total_value > 0
        &&& self.token_supply > 0
    }
}

/// The 290-byte encoding of a property record.
pub open spec fn spec_encode_property(p: PropertyView) -> Seq<u8> {
    seq![if p.is_initialized { 1u8 } else { 0u8 }] + p.owner + p.property_id
        + spec_pad(p.name, 64) + spec_pad(p.address, 128) + spec_u64_to_le_bytes(p.total_value)
        + spec_u64_to_le_bytes(p.token_supply) + spec_u64_to_le_bytes(p.tokens_sold)
        + seq![p.yield_percentage] + spec_u64_to_le_bytes(p.last_yield_distribution)
}

/// Decoding of a property record from a byte buffer.
pub open spec fn spec_decode_property(s: Seq<u8>) -> Result<PropertyView, DecodeError> {
    if s.len() < PROPERTY_LEN {
        Err(DecodeError::TooShort)
    } else if s[0] != 0 && s[0] != 1 {
        Err(DecodeError::InvalidFlag)
    } else {
        Ok(
            PropertyView {
                is_initialized: s[0] == 1,
                owner: s.subrange(1, 33),
                property_id: s.subrange(33, 65),
                name: spec_strip(s.subrange(65, 129)),
                address: spec_strip(s.subrange(129, 257)),
                total_value: spec_u64_from_le_bytes(s.subrange(257, 265)),
                token_supply: spec_u64_from_le_bytes(s.subrange(265, 273)),
                tokens_sold: spec_u64_from_le_bytes(s.subrange(273, 281)),
                yield_percentage: s[281],
                last_yield_distribution: spec_u64_from_le_bytes(s.subrange(282, 290)),
            },
        )
    }
}

impl Property {
    /// Whether the record slot has been initialized.
    pub fn is_initialized(&self) -> (r: bool)
        ensures
            r == self@.is_initialized,
    {
        self.is_initialized
    }

    /// Appends the fixed 290-byte encoding of this record to `dst`.
    pub fn pack_into_slice(&self, dst: &mut Vec<u8>)
        requires
            self@.wf(),
        ensures
            final(dst)@ == old(dst)@ + spec_encode_property(self@),
            final(dst)@.len() == old(dst)@.len() + PROPERTY_LEN,
    {
        proof {
            lemma_auto_spec_u64_to_from_le_bytes();
        }
        dst.push(if self.is_initialized {
            1u8
        } else {
            0u8
        });
        write_bytes(dst, self.owner.as_slice());
        write_bytes(dst, self.property_id.as_slice());
        write_text(dst, self.name.as_slice(), 64);
        write_text(dst, self.address.as_slice(), 128);
        write_u64_le(dst, self.total_value);
        write_u64_le(dst, self.token_supply);
        write_u64_le(dst, self.tokens_sold);
        dst.push(self.yield_percentage);
        write_u64_le(dst, self.last_yield_distribution);
        proof {
            assert(final(dst)@ =~= old(dst)@ + spec_encode_property(self@));
        }
    }

    /// Decodes a record from the first 290 bytes of `src`, ignoring any
    /// trailing bytes; rejects shorter buffers and malformed flag bytes.
    pub fn unpack_from_slice(src: &[u8]) -> (r: Result<Property, DecodeError>)
        ensures
            match r {
                Ok(p) => spec_decode_property(src@) == Ok::<PropertyView, DecodeError>(p@)
                    && p@.wf(),
                Err(e) => spec_decode_property(src@) == Err::<PropertyView, DecodeError>(e),
            },
    {
        if src.len() < PROPERTY_LEN {
            return Err(DecodeError::TooShort);
        }
        let is_initialized = match read_flag(src, 0) {
            Ok(b) => b,
            Err(e) => {
                return Err(e);
            },
        };
        proof {
            lemma_strip_wf(src@.subrange(65, 129));
            lemma_strip_wf(src@.subrange(129, 257));
        }
        Ok(
            Property {
                is_initialized,
                owner: read_bytes(src, 1, 32),
                property_id: read_bytes(src, 33, 32),
                name: read_text(src, 65, 64),
                address: read_text(src, 129, 128),
                total_value: read_u64_le(src, 257),
                token_supply: read_u64_le(src, 265),
                tokens_sold: read_u64_le(src, 273),
                yield_percentage: src[281],
                last_yield_distribution: read_u64_le(src, 282),
            },
        )
    }
}

/// Decoding a well-formed record's encoding gives the record back, exactly.
pub proof fn lemma_property_round_trip(p: PropertyView)
    requires
        p.wf(),
    ensures
        spec_encode_property(p).len() == PROPERTY_LEN,
        spec_decode_property(spec_encode_property(p)) == Ok::<PropertyView, DecodeError>(p),
{
    lemma_auto_spec_u64_to_from_le_bytes();
    lemma_strip_pad(p.name, 64);
    lemma_strip_pad(p.address, 128);
    let e = spec_encode_property(p);
    assert(e.len() == PROPERTY_LEN);
    assert(e[0] == if p.is_initialized { 1u8 } else { 0u8 });
    assert(e.subrange(1, 33) =~= p.owner);
    assert(e.subrange(33, 65) =~= p.property_id);
    assert(e.subrange(65, 129) =~= spec_pad(p.name, 64));
    assert(e.subrange(129, 257) =~= spec_pad(p.address, 128));
    assert(e.subrange(257, 265) =~= spec_u64_to_le_bytes(p.total_value));
    assert(e.subrange(265, 273) =~= spec_u64_to_le_bytes(p.token_supply));
    assert(e.subrange(273, 281) =~= spec_u64_to_le_bytes(p.tokens_sold));
    assert(e[281] == p.yield_percentage);
    assert(e.subrange(282, 290) =~= spec_u64_to_le_bytes(p.last_yield_distribution));
}

/// A holder's stake in one property.
#[derive(Clone, Debug, PartialEq, Eq)]
pub struct PropertyToken {
    pub is_initialized: bool,
    /// Opaque identifier of the property held (32 bytes).
    pub property_id: Vec<u8>,
    /// Identity of the holder (32 bytes).
    pub owner: Vec<u8>,
    /// Units of fractional ownership held.
    pub amount: u64,
    /// Cumulative price paid for the held units.
    pub purchase_price: u64,
    /// Unix timestamp of the first purchase.
    pub purchase_date: u64,
    /// Unix timestamp of the last yield claim.
    pub last_yield_claim: u64,
}

/// Mathematical image of a `PropertyToken`.
pub ghost struct PropertyTokenView {
    pub is_initialized: bool,
    pub property_id: Seq<u8>,
    pub owner: Seq<u8>,
    pub amount: u64,
    pub purchase_price: u64,
    pub purchase_date: u64,
    pub last_yield_claim: u64,
}

impl View for PropertyToken {
    type V = PropertyTokenView;

    open spec fn view(&self) -> PropertyTokenView {
        PropertyTokenView {
            is_initialized: self.is_initialized,
            property_id: self.property_id@,
            owner: self.owner@,
            amount: self.amount,
            purchase_price: self.purchase_price,
            purchase_date: self.purchase_date,
            last_yield_claim: self.last_yield_claim,
        }
    }
}

impl PropertyTokenView {
    /// Structural well-formedness: field sizes fit the fixed layout.
    pub open spec fn wf(self) -> bool {
        &&& self.property_id.len() == 32
        &&& self.owner.len() == 32
    }
}

/// The 97-byte encoding of a token holding record.
pub open spec fn spec_encode_property_token(t: PropertyTokenView) -> Seq<u8> {
    seq![if t.is_initialized { 1u8 } else { 0u8 }] + t.property_id + t.owner
        + spec_u64_to_le_bytes(t.amount) + spec_u64_to_le_bytes(t.purchase_price)
        + spec_u64_to_le_bytes(t.purchase_date) + spec_u64_to_le_bytes(t.last_yield_claim)
}

/// Decoding of a token holding record from a byte buffer.
pub open spec fn spec_decode_property_token(s: Seq<u8>) -> Result<PropertyTokenView, DecodeError> {
    if s.len() < PROPERTY_TOKEN_LEN {
        Err(DecodeError::TooShort)
    } else if s[0] != 0 && s[0] != 1 {
        Err(DecodeError::InvalidFlag)
    } else {
        Ok(
            PropertyTokenView {
                is_initialized: s[0] == 1,
                property_id: s.subrange(1, 33),
                owner: s.subrange(33, 65),
                amount: spec_u64_from_le_bytes(s.subrange(65, 73)),
                purchase_price: spec_u64_from_le_bytes(s.subrange(73, 81)),
                purchase_date: spec_u64_from_le_bytes(s.subrange(81, 89)),
                last_yield_claim: spec_u64_from_le_bytes(s.subrange(89, 97)),
            },
        )
    }
}

impl PropertyToken {
    /// Whether the record slot has been initialized.
    pub fn is_initialized(&self) -> (r: bool)
        ensures
            r == self@.is_initialized,
    {
        self.is_initialized
    }

    /// Appends the fixed 97-byte encoding of this record to `dst`.
    pub fn pack_into_slice(&self, dst: &mut Vec<u8>)
        requires
            self@.wf(),
        ensures
            final(dst)@ == old(dst)@ + spec_encode_property_token(self@),
            final(dst)@.len() == old(dst)@.len() + PROPERTY_TOKEN_LEN,
    {
        proof {
            lemma_auto_spec_u64_to_from_le_bytes();
        }
        dst.push(if self.is_initialized {
            1u8
        } else {
            0u8
        });
        write_bytes(dst, self.property_id.as_slice());
        write_bytes(dst, self.owner.as_slice());
        write_u64_le(dst, self.amount);
        write_u64_le(dst, self.purchase_price);
        write_u64_le(dst, self.purchase_date);
        write_u64_le(dst, self.last_yield_claim);
        proof {
            assert(final(dst)@ =~= old(dst)@ + spec_encode_property_token(self@));
        }
    }

    /// Decodes a record from the first 97 bytes of `src`, ignoring any
    /// trailing bytes; rejects shorter buffers and malformed flag bytes.
    pub fn unpack_from_slice(src: &[u8]) -> (r: Result<PropertyToken, DecodeError>)
        ensures
            match r {
                Ok(t) => spec_decode_property_token(src@) == Ok::<PropertyTokenView, DecodeError>(
                    t@,
                ) && t@.wf(),
                Err(e) => spec_decode_property_token(src@) == Err::<PropertyTokenView, DecodeError>(
                    e,
                ),
            },
    {
        if src.len() < PROPERTY_TOKEN_LEN {
            return Err(DecodeError::TooShort);
        }
        let is_initialized = match read_flag(src, 0) {
            Ok(b) => b,
            Err(e) => {
                return Err(e);
            },
        };
        Ok(
            PropertyToken {
                is_initialized,
                property_id: read_bytes(src, 1, 32),
                owner: read_bytes(src, 33, 32),
                amount: read_u64_le(src, 65),
                purchase_price: read_u64_le(src, 73),
                purchase_date: read_u64_le(src, 81),
                last_yield_claim: read_u64_le(src, 89),
            },
        )
    }
}

/// Decoding a well-formed holding's encoding gives the holding back, exactly.
pub proof fn lemma_property_token_round_trip(t: PropertyTokenView)
    requires
        t.wf(),
    ensures
        spec_encode_property_token(t).len() == PROPERTY_TOKEN_LEN,
        spec_decode_property_token(spec_encode_property_token(t)) == Ok::<
            PropertyTokenView,
            DecodeError,
        >(t),
{
    lemma_auto_spec_u64_to_from_le_bytes();
    let e = spec_encode_property_token(t);
    assert(e.len() == PROPERTY_TOKEN_LEN);
    assert(e[0] == if t.is_initialized { 1u8 } else { 0u8 });
    assert(e.subrange(1, 33) =~= t.property_id);
    assert(e.subrange(33, 65) =~= t.owner);
    assert(e.subrange(65, 73) =~= spec_u64_to_le_bytes(t.amount));
    assert(e.subrange(73, 81) =~= spec_u64_to_le_bytes(t.purchase_price));
    assert(e.subrange(81, 89) =~= spec_u64_to_le_bytes(t.purchase_date));
    assert(e.subrange(89, 97) =~= spec_u64_to_le_bytes(t.last_yield_claim));
}

} // verus!
