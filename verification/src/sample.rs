//! The canonical sample representation and the native sample encodings.
//!
//! The canonical format is a single-precision float at the system edge;
//! the verified pipeline never interprets sample values — it only buffers,
//! reorders, interleaves and pads them — so inside the library a sample is
//! carried as the opaque bit pattern of the float it denotes. The callers
//! at the edge convert between the two representations losslessly.
//!
//! Native integer sample encodings are abstracted by the [`CustomSample`]
//! trait, which gives every encoding a mathematical value and a bounded
//! range; the format normalizer downmixes buffers of any such encoding in
//! its own numeric domain.

use vstd::prelude::*;

verus! {

/// One canonical-format sample, carried as an opaque bit pattern.
#[derive(Clone, Copy, PartialEq, Eq, Structural, Debug)]
pub struct CanonSample {
    pub bits: u32,
}

/// The equilibrium (silence) sample used for padding and underrun: the
/// canonical zero, whose bit pattern is all-zero.
pub open spec fn equilibrium() -> CanonSample {
    CanonSample { bits: 0 }
}

/// Returns the equilibrium (silence) sample.
pub fn equilibrium_sample() -> (s: CanonSample)
    ensures
        s == equilibrium(),
{
    CanonSample { bits: 0 }
}

/// A native integer sample encoding: a numeric value in a bounded range,
/// wide enough at most for a 64-bit integer. The format normalizer
/// averages buffers of such samples in this numeric domain.
pub trait CustomSample: Sized + Copy {
    /// The mathematical value of the sample.
    spec fn as_int(&self) -> int;

    /// The smallest value of the encoding.
    spec fn min_int() -> int;

    /// The largest value of the encoding.
    spec fn max_int() -> int;

    /// Every sample lies within its encoding's range, and every encoding's
    /// range lies within the signed/unsigned 64-bit span.
    proof fn lemma_bounds(&self)
        ensures
            Self::min_int() <= self.as_int() <= Self::max_int(),
            -0x8000_0000_0000_0000 <= Self::min_int() <= Self::max_int() <= 0xFFFF_FFFF_FFFF_FFFF,
    ;

    /// The sample's value in the wide domain the normalizer sums in.
    fn to_wide(&self) -> (w: i128)
        ensures
            w as int == self.as_int(),
    ;

    /// A sample of this encoding holding the given in-range value.
    fn from_wide(w: i128) -> (s: Self)
        requires
            Self::min_int() <= w as int <= Self::max_int(),
        ensures
            s.as_int() == w as int,
    ;
}

impl CustomSample for i8 {
    open spec fn as_int(&self) -> int {
        *self as int
    }

    open spec fn min_int() -> int {
        i8::MIN as int
    }

    open spec fn max_int() -> int {
        i8::MAX as int
    }

    proof fn lemma_bounds(&self) {
    }

    fn to_wide(&self) -> i128 {
        *self as i128
    }

    fn from_wide(w: i128) -> Self {
        w as i8
    }
}

impl CustomSample for i16 {
    open spec fn as_int(&self) -> int {
        *self as int
    }

    open spec fn min_int() -> int {
        i16::MIN as int
    }

    open spec fn max_int() -> int {
        i16::MAX as int
    }

    proof fn lemma_bounds(&self) {
    }

    fn to_wide(&self) -> i128 {
        *self as i128
    }

    fn from_wide(w: i128) -> Self {
        w as i16
    }
}

impl CustomSample for i32 {
    open spec fn as_int(&self) -> int {
        *self as int
    }

    open spec fn min_int() -> int {
        i32::MIN as int
    }

    open spec fn max_int() -> int {
        i32::MAX as int
    }

    proof fn lemma_bounds(&self) {
    }

    fn to_wide(&self) -> i128 {
        *self as i128
    }

    fn from_wide(w: i128) -> Self {
        w as i32
    }
}

impl CustomSample for i64 {
    open spec fn as_int(&self) -> int {
        *self as int
    }

    open spec fn min_int() -> int {
        i64::MIN as int
    }

    open spec fn max_int() -> int {
        i64::MAX as int
    }

    proof fn lemma_bounds(&self) {
    }

    fn to_wide(&self) -> i128 {
        *self as i128
    }

    fn from_wide(w: i128) -> Self {
        w as i64
    }
}

impl CustomSample for u8 {
    open spec fn as_int(&self) -> int {
        *self as int
    }

    open spec fn min_int() -> int {
        0
    }

    open spec fn max_int() -> int {
        u8::MAX as int
    }

    proof fn lemma_bounds(&self) {
    }

    fn to_wide(&self) -> i128 {
        *self as i128
    }

    fn from_wide(w: i128) -> Self {
        w as u8
    }
}

impl CustomSample for u16 {
    open spec fn as_int(&self) -> int {
        *self as int
    }

    open spec fn min_int() -> int {
        0
    }

    open spec fn max_int() -> int {
        u16::MAX as int
    }

    proof fn lemma_bounds(&self) {
    }

    fn to_wide(&self) -> i128 {
        *self as i128
    }

    fn from_wide(w: i128) -> Self {
        w as u16
    }
}

impl CustomSample for u32 {
    open spec fn as_int(&self) -> int {
        *self as int
    }

    open spec fn min_int() -> int {
        0
    }

    open spec fn max_int() -> int {
        u32::MAX as int
    }

    proof fn lemma_bounds(&self) {
    }

    fn to_wide(&self) -> i128 {
        *self as i128
    }

    fn from_wide(w: i128) -> Self {
        w as u32
    }
}

impl CustomSample for u64 {
    open spec fn as_int(&self) -> int {
        *self as int
    }

    open spec fn min_int() -> int {
        0
    }

    open spec fn max_int() -> int {
        u64::MAX as int
    }

    proof fn lemma_bounds(&self) {
    }

    fn to_wide(&self) -> i128 {
        *self as i128
    }

    fn from_wide(w: i128) -> Self {
        w as u64
    }
}

} // verus!
