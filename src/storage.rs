//! The integer widths a packed range can be stored in.
use vstd::prelude::*;

use crate::sealed::Sealed;

verus! {

/// The largest value of a storage type whose low half is selected by `mask`:
/// both halves full.
pub open spec fn full_value(mask: nat) -> nat {
    ((mask + 1) * (mask + 1) - 1) as nat
}

/// The largest value of each supported width.
pub proof fn lemma_full_values()
    ensures
        full_value(0xFF) == 0xFFFF,
        full_value(0xFFFF) == 0xFFFF_FFFF,
        full_value(0xFFFF_FFFF) == 0xFFFF_FFFF_FFFF_FFFF,
{
    assert(256 * 256 == 0x1_0000) by (nonlinear_arith);
    assert(0x1_0000 * 0x1_0000 == 0x1_0000_0000) by (nonlinear_arith);
    assert(0x1_0000_0000 * 0x1_0000_0000 == 0x1_0000_0000_0000_0000) by (nonlinear_arith);
}

/// An unsigned integer type that can hold a packed range. Each of the two
/// halves of its bits holds one field, so a field is at most `low_mask`.
pub trait SmallRangeStorage: Sealed + Sized + Copy {
    /// A holder of a value of this type that is known not to be zero.
    type NonZeroStorage: Copy;

    /// The number of bits in each half.
    spec fn spec_half_bits() -> nat;

    /// The mask that selects the low half.
    spec fn spec_low_mask() -> nat;

    /// The integer that a value of this type stands for.
    spec fn as_nat(self) -> nat;

    /// The integer that a non-zero holder holds.
    spec fn nonzero_value(nz: Self::NonZeroStorage) -> nat;

    /// The halves split the type's bits exactly.
    proof fn lemma_layout()
        ensures
            (Self::spec_half_bits() == 8 && Self::spec_low_mask() == 0xFF) || (
            Self::spec_half_bits() == 16 && Self::spec_low_mask() == 0xFFFF) || (
            Self::spec_half_bits() == 32 && Self::spec_low_mask() == 0xFFFF_FFFF),
    ;

    /// Every value fits in the type's bits.
    proof fn lemma_bounded(x: Self)
        ensures
            x.as_nat() <= full_value(Self::spec_low_mask()),
    ;

    fn half_bits() -> (r: u32)
        ensures
            r == Self::spec_half_bits(),
    ;

    fn low_mask() -> (r: Self)
        ensures
            r.as_nat() == Self::spec_low_mask(),
    ;

    fn to_u64(self) -> (r: u64)
        ensures
            r == self.as_nat(),
    ;

    fn from_u64(v: u64) -> (r: Self)
        requires
            v <= full_value(Self::spec_low_mask()),
        ensures
            r.as_nat() == v,
    ;

    /// Holds `val`, which the caller has shown to be non-zero.
    fn new_nonzero_unchecked(val: Self) -> (r: Self::NonZeroStorage)
        requires
            val.as_nat() != 0,
        ensures
            Self::nonzero_value(r) == val.as_nat(),
    ;

    fn get_nonzero(nz: Self::NonZeroStorage) -> (r: Self)
        ensures
            r.as_nat() == Self::nonzero_value(nz),
            r.as_nat() != 0,
    ;
}

/// A `u16` that is not zero, kept in `core::num::NonZeroU16` so that its zero
/// pattern is free for `Option`. Its field is hidden from the verifier, which
/// cannot be told of `core::num::NonZero`: that type is bounded by a trait that
/// stable Rust cannot name.
#[verifier::external_body]
#[derive(Copy, PartialEq, Eq, Hash, Debug)]
pub struct NonZeroU16Bits {
    nz: core::num::NonZeroU16,
}

impl Clone for NonZeroU16Bits {
    fn clone(&self) -> (r: Self)
        ensures
            r == *self,
    {
        *self
    }
}

/// The integer held by a `NonZeroU16Bits`.
pub uninterp spec fn nonzero_u16_value(n: NonZeroU16Bits) -> u16;

/// Relies on `NonZeroU16::new`: `Some` of the value for a non-zero input, so
/// the `unwrap` cannot fail on what `requires` admits.
#[verifier::external_body]
fn wrap_nonzero_u16(v: u16) -> (r: NonZeroU16Bits)
    requires
        v != 0,
    ensures
        nonzero_u16_value(r) == v,
{
    NonZeroU16Bits { nz: core::num::NonZeroU16::new(v).unwrap() }
}

/// Relies on `NonZeroU16::get`: the value held, which is not zero.
#[verifier::external_body]
fn unwrap_nonzero_u16(n: NonZeroU16Bits) -> (r: u16)
    ensures
        r == nonzero_u16_value(n),
        r != 0,
{
    n.nz.get()
}

impl SmallRangeStorage for u16 {
    type NonZeroStorage = NonZeroU16Bits;

    open spec fn spec_half_bits() -> nat {
        8
    }

    open spec fn spec_low_mask() -> nat {
        0xFF
    }

    open spec fn as_nat(self) -> nat {
        self as nat
    }

    open spec fn nonzero_value(nz: NonZeroU16Bits) -> nat {
        nonzero_u16_value(nz) as nat
    }

    proof fn lemma_layout() {
    }

    proof fn lemma_bounded(x: u16) {
        lemma_full_values();
    }

    fn half_bits() -> (r: u32) {
        8
    }

    fn low_mask() -> (r: u16) {
        0xFF
    }

    fn to_u64(self) -> (r: u64) {
        self as u64
    }

    fn from_u64(v: u64) -> (r: u16) {
        proof {
            lemma_full_values();
        }
        v as u16
    }

    fn new_nonzero_unchecked(val: u16) -> (r: NonZeroU16Bits) {
        wrap_nonzero_u16(val)
    }

    fn get_nonzero(nz: NonZeroU16Bits) -> (r: u16) {
        unwrap_nonzero_u16(nz)
    }
}

/// A `u32` that is not zero, kept in `core::num::NonZeroU32` so that its zero
/// pattern is free for `Option`. Its field is hidden from the verifier, which
/// cannot be told of `core::num::NonZero`: that type is bounded by a trait that
/// stable Rust cannot name.
#[verifier::external_body]
#[derive(Copy, PartialEq, Eq, Hash, Debug)]
pub struct NonZeroU32Bits {
    nz: core::num::NonZeroU32,
}

impl Clone for NonZeroU32Bits {
    fn clone(&self) -> (r: Self)
        ensures
            r == *self,
    {
        *self
    }
}

/// The integer held by a `NonZeroU32Bits`.
pub uninterp spec fn nonzero_u32_value(n: NonZeroU32Bits) -> u32;

/// Relies on `NonZeroU32::new`: `Some` of the value for a non-zero input, so
/// the `unwrap` cannot fail on what `requires` admits.
#[verifier::external_body]
fn wrap_nonzero_u32(v: u32) -> (r: NonZeroU32Bits)
    requires
        v != 0,
    ensures
        nonzero_u32_value(r) == v,
{
    NonZeroU32Bits { nz: core::num::NonZeroU32::new(v).unwrap() }
}

/// Relies on `NonZeroU32::get`: the value held, which is not zero.
#[verifier::external_body]
fn unwrap_nonzero_u32(n: NonZeroU32Bits) -> (r: u32)
    ensures
        r == nonzero_u32_value(n),
        r != 0,
{
    n.nz.get()
}

impl SmallRangeStorage for u32 {
    type NonZeroStorage = NonZeroU32Bits;

    open spec fn spec_half_bits() -> nat {
        16
    }

    open spec fn spec_low_mask() -> nat {
        0xFFFF
    }

    open spec fn as_nat(self) -> nat {
        self as nat
    }

    open spec fn nonzero_value(nz: NonZeroU32Bits) -> nat {
        nonzero_u32_value(nz) as nat
    }

    proof fn lemma_layout() {
    }

    proof fn lemma_bounded(x: u32) {
        lemma_full_values();
    }

    fn half_bits() -> (r: u32) {
        16
    }

    fn low_mask() -> (r: u32) {
        0xFFFF
    }

    fn to_u64(self) -> (r: u64) {
        self as u64
    }

    fn from_u64(v: u64) -> (r: u32) {
        proof {
            lemma_full_values();
        }
        v as u32
    }

    fn new_nonzero_unchecked(val: u32) -> (r: NonZeroU32Bits) {
        wrap_nonzero_u32(val)
    }

    fn get_nonzero(nz: NonZeroU32Bits) -> (r: u32) {
        unwrap_nonzero_u32(nz)
    }
}

/// A `u64` that is not zero, kept in `core::num::NonZeroU64` so that its zero
/// pattern is free for `Option`. Its field is hidden from the verifier, which
/// cannot be told of `core::num::NonZero`: that type is bounded by a trait that
/// stable Rust cannot name.
#[verifier::external_body]
#[derive(Copy, PartialEq, Eq, Hash, Debug)]
pub struct NonZeroU64Bits {
    nz: core::num::NonZeroU64,
}

impl Clone for NonZeroU64Bits {
    fn clone(&self) -> (r: Self)
        ensures
            r == *self,
    {
        *self
    }
}

/// The integer held by a `NonZeroU64Bits`.
pub uninterp spec fn nonzero_u64_value(n: NonZeroU64Bits) -> u64;

/// Relies on `NonZeroU64::new`: `Some` of the value for a non-zero input, so
/// the `unwrap` cannot fail on what `requires` admits.
#[verifier::external_body]
fn wrap_nonzero_u64(v: u64) -> (r: NonZeroU64Bits)
    requires
        v != 0,
    ensures
        nonzero_u64_value(r) == v,
{
    NonZeroU64Bits { nz: core::num::NonZeroU64::new(v).unwrap() }
}

/// Relies on `NonZeroU64::get`: the value held, which is not zero.
#[verifier::external_body]
fn unwrap_nonzero_u64(n: NonZeroU64Bits) -> (r: u64)
    ensures
        r == nonzero_u64_value(n),
        r != 0,
{
    n.nz.get()
}

impl SmallRangeStorage for u64 {
    type NonZeroStorage = NonZeroU64Bits;

    open spec fn spec_half_bits() -> nat {
        32
    }

    open spec fn spec_low_mask() -> nat {
        0xFFFF_FFFF
    }

    open spec fn as_nat(self) -> nat {
        self as nat
    }

    open spec fn nonzero_value(nz: NonZeroU64Bits) -> nat {
        nonzero_u64_value(nz) as nat
    }

    proof fn lemma_layout() {
    }

    proof fn lemma_bounded(x: u64) {
        lemma_full_values();
    }

    fn half_bits() -> (r: u32) {
        32
    }

    fn low_mask() -> (r: u64) {
        0xFFFF_FFFF
    }

    fn to_u64(self) -> (r: u64) {
        self as u64
    }

    fn from_u64(v: u64) -> (r: u64) {
        proof {
            lemma_full_values();
        }
        v as u64
    }

    fn new_nonzero_unchecked(val: u64) -> (r: NonZeroU64Bits) {
        wrap_nonzero_u64(val)
    }

    fn get_nonzero(nz: NonZeroU64Bits) -> (r: u64) {
        unwrap_nonzero_u64(nz)
    }
}

/// A `usize` that is not zero, kept in `core::num::NonZeroUsize` so that its zero
/// pattern is free for `Option`. Its field is hidden from the verifier, which
/// cannot be told of `core::num::NonZero`: that type is bounded by a trait that
/// stable Rust cannot name.
#[verifier::external_body]
#[derive(Copy, PartialEq, Eq, Hash, Debug)]
pub struct NonZeroUsizeBits {
    nz: core::num::NonZeroUsize,
}

impl Clone for NonZeroUsizeBits {
    fn clone(&self) -> (r: Self)
        ensures
            r == *self,
    {
        *self
    }
}

/// The integer held by a `NonZeroUsizeBits`.
pub uninterp spec fn nonzero_usize_value(n: NonZeroUsizeBits) -> usize;

/// Relies on `NonZeroUsize::new`: `Some` of the value for a non-zero input, so
/// the `unwrap` cannot fail on what `requires` admits.
#[verifier::external_body]
fn wrap_nonzero_usize(v: usize) -> (r: NonZeroUsizeBits)
    requires
        v != 0,
    ensures
        nonzero_usize_value(r) == v,
{
    NonZeroUsizeBits { nz: core::num::NonZeroUsize::new(v).unwrap() }
}

/// Relies on `NonZeroUsize::get`: the value held, which is not zero.
#[verifier::external_body]
fn unwrap_nonzero_usize(n: NonZeroUsizeBits) -> (r: usize)
    ensures
        r == nonzero_usize_value(n),
        r != 0,
{
    n.nz.get()
}

impl SmallRangeStorage for usize {
    type NonZeroStorage = NonZeroUsizeBits;

    open spec fn spec_half_bits() -> nat {
        (usize::BITS / 2) as nat
    }

    open spec fn spec_low_mask() -> nat {
        if usize::BITS == 64 {
            0xFFFF_FFFF
        } else {
            0xFFFF
        }
    }

    open spec fn as_nat(self) -> nat {
        self as nat
    }

    open spec fn nonzero_value(nz: NonZeroUsizeBits) -> nat {
        nonzero_usize_value(nz) as nat
    }

    proof fn lemma_layout() {
    }

    proof fn lemma_bounded(x: usize) {
        lemma_full_values();
    }

    fn half_bits() -> (r: u32) {
        usize::BITS / 2
    }

    fn low_mask() -> (r: usize) {
        if usize::BITS == 64 {
            0xFFFF_FFFF
        } else {
            0xFFFF
        }
    }

    fn to_u64(self) -> (r: u64) {
        self as u64
    }

    fn from_u64(v: u64) -> (r: usize) {
        proof {
            lemma_full_values();
        }
        v as usize
    }

    fn new_nonzero_unchecked(val: usize) -> (r: NonZeroUsizeBits) {
        wrap_nonzero_usize(val)
    }

    fn get_nonzero(nz: NonZeroUsizeBits) -> (r: usize) {
        unwrap_nonzero_usize(nz)
    }
}

} // verus!
