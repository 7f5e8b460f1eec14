//! The packed range and the laws it obeys.
use vstd::prelude::*;

use vstd::arithmetic::div_mod::lemma_fundamental_div_mod_converse;

use crate::storage::{full_value, lemma_full_values, SmallRangeStorage};

verus! {

/// The half-widths and masks that the storage types have.
pub open spec fn is_layout(h: u64, mask: u64) -> bool {
    (h == 8 && mask == 0xFF) || (h == 16 && mask == 0xFFFF) || (h == 32 && mask == 0xFFFF_FFFF)
}

/// Shifting right by the half-width divides by the radix, and masking keeps
/// the remainder.
proof fn lemma_split_halves(x: u64, h: u64, mask: u64)
    requires
        is_layout(h, mask),
    ensures
        x >> h == x as int / (mask + 1),
        x & mask == x as int % (mask + 1),
{
    if h == 8 {
        assert(x >> 8u64 == x / 0x100 && x & 0xFF == x % 0x100) by (bit_vector);
    } else if h == 16 {
        assert(x >> 16u64 == x / 0x1_0000 && x & 0xFFFF == x % 0x1_0000) by (bit_vector);
    } else {
        assert(x >> 32u64 == x / 0x1_0000_0000 && x & 0xFFFF_FFFF == x % 0x1_0000_0000)
            by (bit_vector);
    }
}

/// Joining a high half and a low half, each at most the mask, is
/// multiplying the high half by the radix and adding the low half.
proof fn lemma_join_halves(hi: u64, lo: u64, h: u64, mask: u64)
    requires
        is_layout(h, mask),
        hi <= mask,
        lo <= mask,
    ensures
        (hi << h) | lo == hi * (mask + 1) + lo,
        (hi << h) | lo <= full_value(mask as nat),
{
    lemma_full_values();
    if h == 8 {
        assert((hi << 8u64) | lo <= 0xFFFF) by (bit_vector)
            requires
                hi <= 0xFF,
                lo <= 0xFF,
        ;
        assert((hi << 8u64) | lo == hi * 0x100 + lo) by (bit_vector)
            requires
                hi <= 0xFF,
                lo <= 0xFF,
        ;
    } else if h == 16 {
        assert((hi << 16u64) | lo <= 0xFFFF_FFFF) by (bit_vector)
            requires
                hi <= 0xFFFF,
                lo <= 0xFFFF,
        ;
        assert((hi << 16u64) | lo == hi * 0x1_0000 + lo) by (bit_vector)
            requires
                hi <= 0xFFFF,
                lo <= 0xFFFF,
        ;
    } else {
        assert((hi << 32u64) | lo <= 0xFFFF_FFFF_FFFF_FFFF) by (bit_vector)
            requires
                hi <= 0xFFFF_FFFF,
                lo <= 0xFFFF_FFFF,
        ;
        assert((hi << 32u64) | lo == hi * 0x1_0000_0000 + lo) by (bit_vector)
            requires
                hi <= 0xFFFF_FFFF,
                lo <= 0xFFFF_FFFF,
        ;
    }
}

/// The decimal digit for `d < 10`.
pub open spec fn digit_char(d: nat) -> char {
    seq!['0', '1', '2', '3', '4', '5', '6', '7', '8', '9'][d as int]
}

/// The decimal digits of `n`, most significant first, without leading zeros.
pub open spec fn decimal(n: nat) -> Seq<char>
    decreases n,
{
    if n < 10 {
        seq![digit_char(n)]
    } else {
        decimal(n / 10).push(digit_char(n % 10))
    }
}

/// How a range with these bounds is shown: its start and its end.
pub open spec fn debug_text(start: nat, end: nat) -> Seq<char> {
    "SmallRange { start: "@ + decimal(start) + ", end: "@ + decimal(end) + " }"@
}

/// Relies on `format!`, whose `{}` writes an unsigned integer in decimal.
#[verifier::external_body]
fn render_bounds(start: u64, end: u64) -> (r: String)
    ensures
        r@ == debug_text(start as nat, end as nat),
{
    format!("SmallRange {{ start: {}, end: {} }}", start, end)
}

/// A half-open range `[start, start + length)` of unsigned integers, packed
/// into one value of the storage type `T`.
#[derive(Copy, PartialEq, Eq, Hash, Debug)]
pub struct SmallRange<T: SmallRangeStorage = u64> {
    bits: T::NonZeroStorage,
}

impl<T: SmallRangeStorage> Clone for SmallRange<T> {
    fn clone(&self) -> (r: Self)
        ensures
            r == *self,
    {
        *self
    }
}

impl<T: SmallRangeStorage> SmallRange<T> {
    /// The weight of the high half: one more than the low mask.
    pub open spec fn spec_radix() -> int {
        T::spec_low_mask() + 1int
    }

    /// The largest start, and the largest length, that a range can have.
    pub open spec fn spec_capacity() -> int {
        T::spec_low_mask() - 1
    }

    /// The packed integer for a start and a length: each stored plus one,
    /// the start in the high half and the length in the low half.
    pub open spec fn spec_encode(start: int, length: int) -> int {
        (start + 1) * Self::spec_radix() + (length + 1)
    }

    /// The start and the length that a packed integer stands for.
    pub open spec fn spec_decode(packed: int) -> (int, int) {
        (packed / Self::spec_radix() - 1, packed % Self::spec_radix() - 1)
    }

    /// Whether `[start, end)` can be stored: ordered, with start and length
    /// each within capacity.
    pub open spec fn spec_valid(start: int, end: int) -> bool {
        0 <= start <= end && start <= Self::spec_capacity() && end - start
            <= Self::spec_capacity()
    }

    /// The stored integer.
    pub closed spec fn packed(self) -> int {
        T::nonzero_value(self.bits) as int
    }

    pub open spec fn spec_start(self) -> int {
        Self::spec_decode(self.packed()).0
    }

    pub open spec fn spec_len(self) -> int {
        Self::spec_decode(self.packed()).1
    }

    pub open spec fn spec_end(self) -> int {
        self.spec_start() + self.spec_len()
    }

    pub open spec fn spec_is_empty(self) -> bool {
        self.spec_len() == 0
    }

    pub open spec fn spec_contains(self, value: int) -> bool {
        self.spec_start() <= value < self.spec_end()
    }

    pub open spec fn spec_overlaps(self, other: Self) -> bool {
        !self.spec_is_empty() && !other.spec_is_empty() && self.spec_start() < other.spec_end()
            && other.spec_start() < self.spec_end()
    }

    /// Both stored fields are at least one.
    #[verifier::type_invariant]
    closed spec fn inv(self) -> bool {
        &&& self.packed() % Self::spec_radix() >= 1
        &&& self.packed() / Self::spec_radix() >= 1
    }

    /// Decoding an encoded start and length gives them back.
    pub proof fn lemma_round_trip(start: int, length: int)
        requires
            0 <= start <= Self::spec_capacity(),
            0 <= length <= Self::spec_capacity(),
        ensures
            Self::spec_decode(Self::spec_encode(start, length)) == (start, length),
    {
        T::lemma_layout();
        lemma_fundamental_div_mod_converse(
            Self::spec_encode(start, length),
            Self::spec_radix(),
            start + 1,
            length + 1,
        );
    }

    /// An encoded start and length is never the all-zero pattern.
    pub proof fn lemma_encoding_never_zero(start: int, length: int)
        requires
            0 <= start <= Self::spec_capacity(),
            0 <= length <= Self::spec_capacity(),
        ensures
            Self::spec_encode(start, length) != 0,
    {
        T::lemma_layout();
        assert((start + 1) * Self::spec_radix() >= 0) by (nonlinear_arith)
            requires
                start >= 0,
                Self::spec_radix() >= 0,
        ;
    }

    /// The fields that a stored integer holds are within capacity.
    proof fn lemma_fields_in_capacity(self)
        requires
            self.inv(),
            self.packed() <= full_value(T::spec_low_mask()),
        ensures
            0 <= self.spec_start() <= Self::spec_capacity(),
            0 <= self.spec_len() <= Self::spec_capacity(),
    {
        T::lemma_layout();
        lemma_full_values();
        let p = self.packed();
        if T::spec_low_mask() == 0xFF {
            assert(p / Self::spec_radix() == p / 0x100);
        } else if T::spec_low_mask() == 0xFFFF {
            assert(p / Self::spec_radix() == p / 0x1_0000);
        } else {
            assert(p / Self::spec_radix() == p / 0x1_0000_0000);
        }
    }

    /// The stored integer for `[start, end)`, held as non-zero.
    fn encode(start: T, end: T) -> (r: T::NonZeroStorage)
        requires
            Self::spec_valid(start.as_nat() as int, end.as_nat() as int),
        ensures
            T::nonzero_value(r) == Self::spec_encode(
                start.as_nat() as int,
                end.as_nat() - start.as_nat(),
            ),
    {
        proof {
            T::lemma_layout();
        }
        let s = start.to_u64();
        let e = end.to_u64();
        let length = e - s;
        let hi = s + 1;
        let lo = length + 1;
        let h = T::half_bits() as u64;
        let mask = T::low_mask().to_u64();
        proof {
            lemma_join_halves(hi, lo, h, mask);
            lemma_full_values();
            Self::lemma_encoding_never_zero(s as int, length as int);
        }
        let packed = (hi << h) | lo;
        T::new_nonzero_unchecked(T::from_u64(packed))
    }

    /// The start and the length that this range stores.
    fn decode_start_length(&self) -> (r: (T, T))
        ensures
            r.0.as_nat() == self.spec_start(),
            r.1.as_nat() == self.spec_len(),
            0 <= self.spec_start() <= Self::spec_capacity(),
            0 <= self.spec_len() <= Self::spec_capacity(),
    {
        proof {
            use_type_invariant(self);
        }
        let raw = T::get_nonzero(self.bits);
        let packed = raw.to_u64();
        let h = T::half_bits() as u64;
        let mask = T::low_mask().to_u64();
        proof {
            T::lemma_layout();
            T::lemma_bounded(raw);
            lemma_split_halves(packed, h, mask);
            lemma_full_values();
            self.lemma_fields_in_capacity();
        }
        let hi = packed >> h;
        let lo = packed & mask;
        (T::from_u64(hi - 1), T::from_u64(lo - 1))
    }

    /// The range `[start, end)`. The caller must ask for an ordered range
    /// whose start and length are within capacity; `try_new` checks this.
    pub fn new(start: T, end: T) -> (r: Self)
        requires
            Self::spec_valid(start.as_nat() as int, end.as_nat() as int),
        ensures
            r.spec_start() == start.as_nat(),
            r.spec_end() == end.as_nat(),
            r.spec_len() == end.as_nat() - start.as_nat(),
            r.packed() == Self::spec_encode(start.as_nat() as int, end.as_nat() - start.as_nat()),
    {
        let bits = Self::encode(start, end);
        proof {
            Self::lemma_round_trip(start.as_nat() as int, end.as_nat() - start.as_nat());
        }
        SmallRange { bits }
    }

    pub fn start(&self) -> (r: T)
        ensures
            r.as_nat() == self.spec_start(),
    {
        let (start, _) = self.decode_start_length();
        start
    }

    /// The end of the range, which it does not contain.
    pub fn end(&self) -> (r: T)
        ensures
            r.as_nat() == self.spec_end(),
    {
        let (start, length) = self.decode_start_length();
        proof {
            T::lemma_layout();
            lemma_full_values();
        }
        T::from_u64(start.to_u64() + length.to_u64())
    }

    pub fn len(&self) -> (r: usize)
        ensures
            r == self.spec_len(),
    {
        let (_, length) = self.decode_start_length();
        proof {
            T::lemma_layout();
        }
        length.to_u64() as usize
    }

    pub fn is_empty(&self) -> (r: bool)
        ensures
            r == self.spec_is_empty(),
            r == (self.spec_len() == 0),
    {
        let (_, length) = self.decode_start_length();
        length.to_u64() == 0
    }

    /// The same range as a `core::ops::Range`.
    pub fn to_range(&self) -> (r: core::ops::Range<T>)
        ensures
            r.start.as_nat() == self.spec_start(),
            r.end.as_nat() == self.spec_end(),
    {
        let (start, length) = self.decode_start_length();
        proof {
            T::lemma_layout();
            lemma_full_values();
        }
        core::ops::Range { start, end: T::from_u64(start.to_u64() + length.to_u64()) }
    }

    /// The range `[start, end)`, or `None` where `start > end` or where the
    /// start or the length exceeds the capacity.
    pub fn try_new(start: T, end: T) -> (r: Option<Self>)
        ensures
            r.is_some() <==> Self::spec_valid(start.as_nat() as int, end.as_nat() as int),
            r matches Some(range) ==> range.spec_start() == start.as_nat() && range.spec_end()
                == end.as_nat() && range.packed() == Self::spec_encode(
                start.as_nat() as int,
                end.as_nat() - start.as_nat(),
            ),
    {
        let s = start.to_u64();
        let e = end.to_u64();
        if s > e {
            return None;
        }
        let mask = T::low_mask().to_u64();
        proof {
            T::lemma_layout();
        }
        let length = e - s;
        // The stored fields are `s + 1` and `length + 1`; each must fit the mask.
        if s >= mask || length >= mask {
            return None;
        }
        Some(Self::new(start, end))
    }

    /// Whether `start <= value < end`.
    pub fn contains(&self, value: T) -> (r: bool)
        ensures
            r == self.spec_contains(value.as_nat() as int),
    {
        let (start, length) = self.decode_start_length();
        let v = value.to_u64();
        let s = start.to_u64();
        proof {
            T::lemma_layout();
        }
        v >= s && v < s + length.to_u64()
    }

    /// Whether the two ranges share a value. An empty range shares none.
    pub fn overlaps(&self, other: &Self) -> (r: bool)
        ensures
            r == self.spec_overlaps(*other),
    {
        !self.is_empty() && !other.is_empty() && self.start().to_u64() < other.end().to_u64()
            && other.start().to_u64() < self.end().to_u64()
    }

    /// The values of the range in ascending order; the range itself is left
    /// as it was, so it can be walked again.
    pub fn into_iter(&self) -> (r: core::ops::Range<T>)
        ensures
            r.start.as_nat() == self.spec_start(),
            r.end.as_nat() == self.spec_end(),
    {
        self.to_range()
    }

    /// The range shown with its start and its end, as `Debug` shows a
    /// `core::ops::Range` with its fields named.
    pub fn debug_string(&self) -> (r: String)
        ensures
            r@ == debug_text(self.spec_start() as nat, self.spec_end() as nat),
    {
        let start = self.start().to_u64();
        let end = self.end().to_u64();
        render_bounds(start, end)
    }

    /// `overlaps` gives the same answer in either order.
    pub proof fn lemma_overlaps_symmetric(a: Self, b: Self)
        ensures
            a.spec_overlaps(b) == b.spec_overlaps(a),
    {
    }

    /// An empty range overlaps no range, itself included.
    pub proof fn lemma_empty_overlaps_nothing(a: Self, b: Self)
        requires
            a.spec_is_empty(),
        ensures
            !a.spec_overlaps(b),
            !b.spec_overlaps(a),
            !a.spec_overlaps(a),
    {
    }
}

impl<T: SmallRangeStorage> Default for SmallRange<T> {
    /// The empty range at zero.
    fn default() -> (r: Self)
        ensures
            r.spec_start() == 0,
            r.spec_end() == 0,
    {
        proof {
            T::lemma_layout();
        }
        Self::new(T::from_u64(0), T::from_u64(0))
    }
}

} // verus!
