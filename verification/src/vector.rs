//! A 4-wide lane vector of IEEE-754 binary32 values, carried as bit
//! patterns, with elementwise arithmetic and scalar broadcast.

use vstd::prelude::*;
use crate::ieee::is_nan_bits;
use crate::ieee::is_finite_bits;
use crate::ieee::add_bits;
use crate::ieee::sub_bits;
use crate::ieee::mul_bits;
use crate::ieee::div_bits;
use crate::ieee::f32_add_bits;
use crate::ieee::f32_sub_bits;
use crate::ieee::f32_mul_bits;
use crate::ieee::f32_div_bits;
use crate::ieee::POS_ZERO_BITS;
use crate::ieee::NEG_ZERO_BITS;
use crate::ieee::ONE_BITS;

verus! {

/// Four lanes of a single row, each the bit pattern of a binary32 value.
#[derive(Copy, Clone, Debug, PartialEq, Eq, Structural)]
pub struct float4(pub u32, pub u32, pub u32, pub u32);

/// The vector with every lane equal to `s`.
pub open spec fn spec_broadcast(s: u32) -> float4 {
    float4(s, s, s, s)
}

/// The elementwise IEEE-754 sum of two lane vectors.
pub open spec fn spec_add4(a: float4, b: float4) -> float4 {
    float4(add_bits(a.0, b.0), add_bits(a.1, b.1), add_bits(a.2, b.2), add_bits(a.3, b.3))
}

/// The elementwise IEEE-754 difference of two lane vectors.
pub open spec fn spec_sub4(a: float4, b: float4) -> float4 {
    float4(sub_bits(a.0, b.0), sub_bits(a.1, b.1), sub_bits(a.2, b.2), sub_bits(a.3, b.3))
}

/// The elementwise IEEE-754 product of two lane vectors.
pub open spec fn spec_mul4(a: float4, b: float4) -> float4 {
    float4(mul_bits(a.0, b.0), mul_bits(a.1, b.1), mul_bits(a.2, b.2), mul_bits(a.3, b.3))
}

/// The elementwise IEEE-754 quotient of two lane vectors.
pub open spec fn spec_div4(a: float4, b: float4) -> float4 {
    float4(div_bits(a.0, b.0), div_bits(a.1, b.1), div_bits(a.2, b.2), div_bits(a.3, b.3))
}

/// Every lane is finite (no infinity, no NaN).
pub open spec fn finite4(a: float4) -> bool {
    is_finite_bits(a.0) && is_finite_bits(a.1) && is_finite_bits(a.2) && is_finite_bits(a.3)
}

/// No lane is `-0.0`.
pub open spec fn no_neg_zero4(a: float4) -> bool {
    a.0 != NEG_ZERO_BITS && a.1 != NEG_ZERO_BITS && a.2 != NEG_ZERO_BITS && a.3 != NEG_ZERO_BITS
}

/// No pair of corresponding lanes is two NaNs. Addition and
/// multiplication are symmetric lane by lane on such pairs; a pair of
/// two NaNs propagates the left payload and need not be.
pub open spec fn comm_ok4(a: float4, b: float4) -> bool {
    &&& !(is_nan_bits(a.0) && is_nan_bits(b.0))
    &&& !(is_nan_bits(a.1) && is_nan_bits(b.1))
    &&& !(is_nan_bits(a.2) && is_nan_bits(b.2))
    &&& !(is_nan_bits(a.3) && is_nan_bits(b.3))
}

impl float4 {
    /// The vector whose four lanes all hold the scalar `s`.
    pub fn broadcast(s: u32) -> (r: float4)
        ensures
            r == spec_broadcast(s),
    {
        float4(s, s, s, s)
    }

    /// Elementwise sum. Commutes whenever no lane pair is two NaNs,
    /// and adding broadcast `+0.0` to a finite vector without `-0.0`
    /// lanes returns it unchanged.
    pub fn add(self, other: float4) -> (r: float4)
        ensures
            r == spec_add4(self, other),
            comm_ok4(self, other) ==> r == spec_add4(other, self),
            other == spec_broadcast(POS_ZERO_BITS) && finite4(self) && no_neg_zero4(self)
                ==> r == self,
    {
        float4(
            f32_add_bits(self.0, other.0),
            f32_add_bits(self.1, other.1),
            f32_add_bits(self.2, other.2),
            f32_add_bits(self.3, other.3),
        )
    }

    /// Elementwise difference. Subtracting broadcast `+0.0` from a
    /// finite vector returns it unchanged.
    pub fn sub(self, other: float4) -> (r: float4)
        ensures
            r == spec_sub4(self, other),
            other == spec_broadcast(POS_ZERO_BITS) && finite4(self) ==> r == self,
    {
        float4(
            f32_sub_bits(self.0, other.0),
            f32_sub_bits(self.1, other.1),
            f32_sub_bits(self.2, other.2),
            f32_sub_bits(self.3, other.3),
        )
    }

    /// Elementwise product. Commutes whenever no lane pair is two NaNs,
    /// and multiplying a finite vector by broadcast `1.0` returns it
    /// unchanged.
    pub fn mul(self, other: float4) -> (r: float4)
        ensures
            r == spec_mul4(self, other),
            comm_ok4(self, other) ==> r == spec_mul4(other, self),
            other == spec_broadcast(ONE_BITS) && finite4(self) ==> r == self,
    {
        float4(
            f32_mul_bits(self.0, other.0),
            f32_mul_bits(self.1, other.1),
            f32_mul_bits(self.2, other.2),
            f32_mul_bits(self.3, other.3),
        )
    }

    /// Elementwise quotient. Dividing a finite vector by broadcast
    /// `1.0` returns it unchanged.
    pub fn div(self, other: float4) -> (r: float4)
        ensures
            r == spec_div4(self, other),
            other == spec_broadcast(ONE_BITS) && finite4(self) ==> r == self,
    {
        float4(
            f32_div_bits(self.0, other.0),
            f32_div_bits(self.1, other.1),
            f32_div_bits(self.2, other.2),
            f32_div_bits(self.3, other.3),
        )
    }
}

} // verus!
