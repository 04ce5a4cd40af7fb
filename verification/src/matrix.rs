//! A 3-row, 4-column matrix of IEEE-754 binary32 values, row-major,
//! with elementwise matrix-matrix, matrix-scalar and scalar-matrix
//! arithmetic. The shape is fixed by the type: every operation takes
//! and returns exactly three 4-wide rows.

use vstd::prelude::*;
use crate::ieee::POS_ZERO_BITS;
use crate::ieee::ONE_BITS;
use crate::vector::float4;
use crate::vector::spec_broadcast;
use crate::vector::spec_add4;
use crate::vector::spec_sub4;
use crate::vector::spec_mul4;
use crate::vector::spec_div4;
use crate::vector::finite4;
use crate::vector::no_neg_zero4;
use crate::vector::comm_ok4;

verus! {

/// Three rows of four binary32 lanes each, row-major.
#[derive(Copy, Clone, Debug, PartialEq, Eq, Structural)]
pub struct float3x4(pub float4, pub float4, pub float4);

/// The matrix naming convention's alias for the same type.
pub type matrix_float3x4 = float3x4;

/// The matrix with every lane equal to `s`.
pub open spec fn spec_broadcast_mat(s: u32) -> float3x4 {
    float3x4(spec_broadcast(s), spec_broadcast(s), spec_broadcast(s))
}

/// The elementwise IEEE-754 sum of two matrices, row by row.
pub open spec fn spec_mat_add(a: float3x4, b: float3x4) -> float3x4 {
    float3x4(spec_add4(a.0, b.0), spec_add4(a.1, b.1), spec_add4(a.2, b.2))
}

/// The elementwise IEEE-754 difference of two matrices, row by row.
pub open spec fn spec_mat_sub(a: float3x4, b: float3x4) -> float3x4 {
    float3x4(spec_sub4(a.0, b.0), spec_sub4(a.1, b.1), spec_sub4(a.2, b.2))
}

/// The elementwise IEEE-754 product of two matrices, row by row.
pub open spec fn spec_mat_mul(a: float3x4, b: float3x4) -> float3x4 {
    float3x4(spec_mul4(a.0, b.0), spec_mul4(a.1, b.1), spec_mul4(a.2, b.2))
}

/// The elementwise IEEE-754 quotient of two matrices, row by row.
pub open spec fn spec_mat_div(a: float3x4, b: float3x4) -> float3x4 {
    float3x4(spec_div4(a.0, b.0), spec_div4(a.1, b.1), spec_div4(a.2, b.2))
}

/// Every lane of every row is finite.
pub open spec fn finite_mat(a: float3x4) -> bool {
    finite4(a.0) && finite4(a.1) && finite4(a.2)
}

/// No lane of any row is `-0.0`.
pub open spec fn no_neg_zero_mat(a: float3x4) -> bool {
    no_neg_zero4(a.0) && no_neg_zero4(a.1) && no_neg_zero4(a.2)
}

/// No pair of corresponding lanes of the two matrices is two NaNs.
pub open spec fn comm_ok_mat(a: float3x4, b: float3x4) -> bool {
    comm_ok4(a.0, b.0) && comm_ok4(a.1, b.1) && comm_ok4(a.2, b.2)
}

impl float3x4 {
    /// Elementwise matrix sum: row `i` of the result is
    /// `self` row `i` plus `other` row `i`. Commutes whenever no pair
    /// of corresponding lanes is two NaNs.
    pub fn add(self, other: float3x4) -> (r: float3x4)
        ensures
            r == spec_mat_add(self, other),
            comm_ok_mat(self, other) ==> r == spec_mat_add(other, self),
    {
        float3x4(self.0.add(other.0), self.1.add(other.1), self.2.add(other.2))
    }

    /// The matrix plus the scalar broadcast to every lane. Adding
    /// `+0.0` to a finite matrix without `-0.0` lanes returns it
    /// unchanged.
    pub fn add_scalar(self, other: u32) -> (r: float3x4)
        ensures
            r == spec_mat_add(self, spec_broadcast_mat(other)),
            other == POS_ZERO_BITS && finite_mat(self) && no_neg_zero_mat(self) ==> r == self,
    {
        let other = float4::broadcast(other);
        float3x4(self.0.add(other), self.1.add(other), self.2.add(other))
    }

    /// The scalar broadcast to every lane, plus the matrix: row `i` of
    /// the result is `broadcast(s)` plus `other` row `i`, in that
    /// operand order.
    pub fn scalar_add(s: u32, other: float3x4) -> (r: float3x4)
        ensures
            r == spec_mat_add(spec_broadcast_mat(s), other),
    {
        let scalar = float4::broadcast(s);
        float3x4(scalar.add(other.0), scalar.add(other.1), scalar.add(other.2))
    }

    /// Elementwise matrix difference: row `i` of the result is
    /// `self` row `i` minus `other` row `i`.
    pub fn sub(self, other: float3x4) -> (r: float3x4)
        ensures
            r == spec_mat_sub(self, other),
    {
        float3x4(self.0.sub(other.0), self.1.sub(other.1), self.2.sub(other.2))
    }

    /// The matrix minus the scalar broadcast to every lane.
    /// Subtracting `+0.0` from a finite matrix returns it unchanged.
    pub fn sub_scalar(self, other: u32) -> (r: float3x4)
        ensures
            r == spec_mat_sub(self, spec_broadcast_mat(other)),
            other == POS_ZERO_BITS && finite_mat(self) ==> r == self,
    {
        let other = float4::broadcast(other);
        float3x4(self.0.sub(other), self.1.sub(other), self.2.sub(other))
    }

    /// The scalar broadcast to every lane, minus the matrix: row `i`
    /// of the result is `broadcast(s)` minus `other` row `i`, in that
    /// operand order, not the negation of `other - s`.
    pub fn scalar_sub(s: u32, other: float3x4) -> (r: float3x4)
        ensures
            r == spec_mat_sub(spec_broadcast_mat(s), other),
    {
        let scalar = float4::broadcast(s);
        float3x4(scalar.sub(other.0), scalar.sub(other.1), scalar.sub(other.2))
    }

    /// Elementwise matrix product: row `i` of the result is
    /// `self` row `i` times `other` row `i`. Commutes whenever no pair
    /// of corresponding lanes is two NaNs.
    pub fn mul(self, other: float3x4) -> (r: float3x4)
        ensures
            r == spec_mat_mul(self, other),
            comm_ok_mat(self, other) ==> r == spec_mat_mul(other, self),
    {
        float3x4(self.0.mul(other.0), self.1.mul(other.1), self.2.mul(other.2))
    }

    /// The matrix times the scalar broadcast to every lane.
    /// Multiplying a finite matrix by `1.0` returns it unchanged.
    pub fn mul_scalar(self, other: u32) -> (r: float3x4)
        ensures
            r == spec_mat_mul(self, spec_broadcast_mat(other)),
            other == ONE_BITS && finite_mat(self) ==> r == self,
    {
        let other = float4::broadcast(other);
        float3x4(self.0.mul(other), self.1.mul(other), self.2.mul(other))
    }

    /// The scalar broadcast to every lane, times the matrix: row `i`
    /// of the result is `broadcast(s)` times `other` row `i`, in that
    /// operand order.
    pub fn scalar_mul(s: u32, other: float3x4) -> (r: float3x4)
        ensures
            r == spec_mat_mul(spec_broadcast_mat(s), other),
    {
        let scalar = float4::broadcast(s);
        float3x4(scalar.mul(other.0), scalar.mul(other.1), scalar.mul(other.2))
    }

    /// Elementwise matrix quotient: row `i` of the result is
    /// `self` row `i` divided by `other` row `i`.
    pub fn div(self, other: float3x4) -> (r: float3x4)
        ensures
            r == spec_mat_div(self, other),
    {
        float3x4(self.0.div(other.0), self.1.div(other.1), self.2.div(other.2))
    }

    /// The matrix divided by the scalar broadcast to every lane
    /// (division by zero yields infinities or NaNs per IEEE-754).
    /// Dividing a finite matrix by `1.0` returns it unchanged.
    pub fn div_scalar(self, other: u32) -> (r: float3x4)
        ensures
            r == spec_mat_div(self, spec_broadcast_mat(other)),
            other == ONE_BITS && finite_mat(self) ==> r == self,
    {
        let other = float4::broadcast(other);
        float3x4(self.0.div(other), self.1.div(other), self.2.div(other))
    }

    /// The scalar broadcast to every lane, divided by the matrix: row
    /// `i` of the result is `broadcast(s)` divided by `other` row `i`,
    /// in that operand order, not the reciprocal of `other / s`.
    pub fn scalar_div(s: u32, other: float3x4) -> (r: float3x4)
        ensures
            r == spec_mat_div(spec_broadcast_mat(s), other),
    {
        let scalar = float4::broadcast(s);
        float3x4(scalar.div(other.0), scalar.div(other.1), scalar.div(other.2))
    }
}

/// Each row of an elementwise matrix sum is the elementwise sum of the
/// operands' corresponding rows.
pub proof fn lemma_add_rows(a: float3x4, b: float3x4)
    ensures
        spec_mat_add(a, b).0 == spec_add4(a.0, b.0),
        spec_mat_add(a, b).1 == spec_add4(a.1, b.1),
        spec_mat_add(a, b).2 == spec_add4(a.2, b.2),
{
}

} // verus!
