//! Positional ABI-typed field values: the raw encoded state of an instance is
//! an ordered sequence of these, and transaction arguments are built from
//! them.

use vstd::prelude::*;
use crate::num::Address;
use crate::num::U256;

verus! {

/// The declared type of one position of a variant's schema.
#[derive(Clone, Copy, PartialEq, Eq, Structural, Debug)]
pub enum FieldKind {
    Uint,
    Bool,
    Address,
}

/// One typed field value, as exchanged with the chain layer.
#[derive(Clone, Copy, PartialEq, Eq, Structural, Debug)]
pub enum AbiValue {
    Uint(U256),
    Bool(bool),
    Address(Address),
}

impl AbiValue {
    /// The declared type this value belongs to.
    pub open spec fn kind(self) -> FieldKind {
        match self {
            AbiValue::Uint(_) => FieldKind::Uint,
            AbiValue::Bool(_) => FieldKind::Bool,
            AbiValue::Address(_) => FieldKind::Address,
        }
    }

    /// The 256-bit integer held by a `Uint` value, in specifications.
    pub open spec fn uint_value(self) -> U256
        recommends
            self.kind() == FieldKind::Uint,
    {
        match self {
            AbiValue::Uint(u) => u,
            _ => U256 { lo: 0, hi: 0 },
        }
    }

    /// The boolean held by a `Bool` value, in specifications.
    pub open spec fn bool_value(self) -> bool
        recommends
            self.kind() == FieldKind::Bool,
    {
        match self {
            AbiValue::Bool(b) => b,
            _ => false,
        }
    }

    /// The 160-bit identifier held by an `Address` value, in specifications.
    pub open spec fn address_value(self) -> Address
        recommends
            self.kind() == FieldKind::Address,
    {
        match self {
            AbiValue::Address(a) => a,
            _ => Address { lo: 0, hi: 0 },
        }
    }

    /// Whether this value has the declared type `k`.
    pub fn has_kind(&self, k: FieldKind) -> (r: bool)
        ensures
            r == (self.kind() == k),
    {
        match (self, k) {
            (AbiValue::Uint(_), FieldKind::Uint) => true,
            (AbiValue::Bool(_), FieldKind::Bool) => true,
            (AbiValue::Address(_), FieldKind::Address) => true,
            _ => false,
        }
    }

    /// The 256-bit integer held by a `Uint` value.
    pub fn as_uint(&self) -> (r: U256)
        requires
            self.kind() == FieldKind::Uint,
        ensures
            *self == AbiValue::Uint(r),
    {
        match self {
            AbiValue::Uint(u) => *u,
            _ => U256::zero(),
        }
    }

    /// The boolean held by a `Bool` value.
    pub fn as_bool(&self) -> (r: bool)
        requires
            self.kind() == FieldKind::Bool,
        ensures
            *self == AbiValue::Bool(r),
    {
        match self {
            AbiValue::Bool(b) => *b,
            _ => false,
        }
    }

    /// The 160-bit identifier held by an `Address` value.
    pub fn as_address(&self) -> (r: Address)
        requires
            self.kind() == FieldKind::Address,
        ensures
            *self == AbiValue::Address(r),
    {
        match self {
            AbiValue::Address(a) => *a,
            _ => Address { lo: 0, hi: 0 },
        }
    }
}

/// The single failure of this layer: the encoded state did not match the
/// variant's positional schema.  It carries the offending raw payload and the
/// display name of the variant that rejected it, for diagnosis; it is never
/// recovered from locally.
#[derive(Clone, PartialEq, Debug)]
pub struct DecodeError {
    /// Display name of the variant whose schema the payload failed.
    pub variant: String,
    /// The raw positional payload that failed to decode.
    pub payload: Vec<AbiValue>,
}

} // verus!
