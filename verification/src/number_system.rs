//! Second-order dual scalars and the supplied algebra that operates on them.
//!
//! A [`HyperDual`] value carries a real part together with two independent
//! first-order sensitivity channels (`e1`, `e2`) and their mixed second-order
//! product (`e1e2`).  Evaluating a scalar function in this number system with
//! `e1` seeded on one variable and `e2` on another yields the function value,
//! the first partial derivative with respect to the first variable, and the
//! mixed second partial with respect to both, all in a single pass.
//!
//! The arithmetic itself (addition, multiplication, the quaternion algebra,
//! trigonometry) is not implemented here: it is an external collaborator,
//! abstracted by the [`DualAlgebra`] trait over the scalar type.  This module
//! only defines the data layout and the channel bookkeeping (seeding, zeroing
//! and swapping of sensitivity channels), which is where the correctness of
//! the derivative caches lives.

use vstd::prelude::*;

verus! {

/// A second-order dual scalar over the plain scalar type `S`.
#[derive(Clone, Copy, Debug, PartialEq)]
pub struct HyperDual<S> {
    /// The real (value) part.
    pub re: S,
    /// First-order sensitivity in the first seeded direction.
    pub e1: S,
    /// First-order sensitivity in the second seeded direction.
    pub e2: S,
    /// Mixed second-order sensitivity of the two seeded directions.
    pub e1e2: S,
}

/// A 3D vector whose components are dual scalars.
#[derive(Clone, Copy, Debug, PartialEq)]
pub struct DualVector<S> {
    pub x: HyperDual<S>,
    pub y: HyperDual<S>,
    pub z: HyperDual<S>,
}

/// An orientation quaternion whose components are dual scalars.
#[derive(Clone, Copy, Debug, PartialEq)]
pub struct DualQuaternion<S> {
    pub q0: HyperDual<S>,
    pub q1: HyperDual<S>,
    pub q2: HyperDual<S>,
    pub q3: HyperDual<S>,
}

/// The supplied dual-number arithmetic and 3D algebra over a scalar type.
///
/// The solver core never computes with scalars itself; it moves them between
/// variables, caches and buffers, and hands every arithmetic step to an
/// implementation of this trait.  A host supplies the trait for its scalar
/// (ordinarily a floating-point type) and with it the usual hyperdual
/// arithmetic rules; nothing is assumed about the results here, so every
/// guarantee proved in this crate holds for any implementation.
pub trait DualAlgebra: Copy + Sized {
    /// The additive identity of the scalar type.
    fn zero() -> Self;

    /// The multiplicative identity, used to seed a sensitivity channel.
    fn one() -> Self;

    /// Plain scalar addition, used to accumulate contributions.
    fn sum(a: Self, b: Self) -> Self;

    /// Dual addition.
    fn dual_add(a: HyperDual<Self>, b: HyperDual<Self>) -> HyperDual<Self>;

    /// Dual subtraction.
    fn dual_sub(a: HyperDual<Self>, b: HyperDual<Self>) -> HyperDual<Self>;

    /// The square of a dual scalar.
    fn dual_sqr(a: HyperDual<Self>) -> HyperDual<Self>;

    /// The orientation quaternion for three Euler-like angles.
    fn quat_from_angles(
        phi: HyperDual<Self>,
        theta: HyperDual<Self>,
        psi: HyperDual<Self>,
    ) -> DualQuaternion<Self>;

    /// The inverse rotation of a quaternion.
    fn quat_inv(q: DualQuaternion<Self>) -> DualQuaternion<Self>;

    /// The image of a vector under the rotation a quaternion represents.
    fn quat_rotate(q: DualQuaternion<Self>, v: DualVector<Self>) -> DualVector<Self>;
}

/// The dual scalar that holds value `v` with its channels seeded as requested:
/// `e1`/`e2` carry `one` where seeded and `zero` elsewhere, and the mixed
/// channel always starts at `zero`.
pub open spec fn spec_seeded<S>(v: S, on_e1: bool, on_e2: bool, zero: S, one: S) -> HyperDual<S> {
    HyperDual {
        re: v,
        e1: if on_e1 { one } else { zero },
        e2: if on_e2 { one } else { zero },
        e1e2: zero,
    }
}

/// `d` with the first sensitivity channel (and the mixed channel) zeroed.
pub open spec fn spec_clear_e1<S>(d: HyperDual<S>, zero: S) -> HyperDual<S> {
    HyperDual { re: d.re, e1: zero, e2: d.e2, e1e2: zero }
}

/// `d` with the second sensitivity channel (and the mixed channel) zeroed.
pub open spec fn spec_clear_e2<S>(d: HyperDual<S>, zero: S) -> HyperDual<S> {
    HyperDual { re: d.re, e1: d.e1, e2: zero, e1e2: zero }
}

/// `d` with all three sensitivity channels zeroed.
pub open spec fn spec_clear_both<S>(d: HyperDual<S>, zero: S) -> HyperDual<S> {
    HyperDual { re: d.re, e1: zero, e2: zero, e1e2: zero }
}

/// `d` with its two first-order channels exchanged.
pub open spec fn spec_swap<S>(d: HyperDual<S>) -> HyperDual<S> {
    HyperDual { re: d.re, e1: d.e2, e2: d.e1, e1e2: d.e1e2 }
}

impl<S: DualAlgebra> DualVector<S> {
    /// Componentwise dual subtraction of two vectors.
    pub fn sub(&self, other: &DualVector<S>) -> DualVector<S> {
        DualVector {
            x: S::dual_sub(self.x, other.x),
            y: S::dual_sub(self.y, other.y),
            z: S::dual_sub(self.z, other.z),
        }
    }
}

impl<S: Copy> HyperDual<S> {
    /// Builds the dual scalar for value `v`, seeding the requested channels.
    pub fn seeded(v: S, on_e1: bool, on_e2: bool, zero: S, one: S) -> (d: HyperDual<S>)
        ensures
            d == spec_seeded(v, on_e1, on_e2, zero, one),
    {
        HyperDual {
            re: v,
            e1: if on_e1 { one } else { zero },
            e2: if on_e2 { one } else { zero },
            e1e2: zero,
        }
    }
}

} // verus!
