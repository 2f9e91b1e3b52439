//! The per-object cache of orientation quaternions with their partial
//! derivatives.
//!
//! The cache stores the six pairwise dual-number combinations of an object's
//! three rotation variables: for a stored pair `(a, b)` the quaternion is
//! built from the three angles with variable `a` seeded on the first
//! sensitivity channel and variable `b` on the second (both on the same
//! variable when `a == b`), and a locked or disabled variable stays unseeded.
//! Building a quaternion from angles is the expensive supplied operation, so
//! the refresh derives degenerate combinations from already computed ones by
//! zeroing channels instead of evaluating again, and the getters serve every
//! requested (pair, order, constant) shape from the six stored entries alone.

use vstd::prelude::*;

use crate::number_system::{DualAlgebra, DualQuaternion, HyperDual};
use crate::system::{is_constant, Variable};
use crate::system_object::{is_rotation_axis, variable_ord, VariableName};

verus! {

/// The quaternion all of whose dual components hold `z` in every channel.
pub open spec fn spec_quat_uniform<S>(z: S) -> DualQuaternion<S> {
    DualQuaternion {
        q0: HyperDual { re: z, e1: z, e2: z, e1e2: z },
        q1: HyperDual { re: z, e1: z, e2: z, e1e2: z },
        q2: HyperDual { re: z, e1: z, e2: z, e1e2: z },
        q3: HyperDual { re: z, e1: z, e2: z, e1e2: z },
    }
}

/// `q` with the first sensitivity channel of every component zeroed.
pub open spec fn spec_quat_clear_e1<S>(q: DualQuaternion<S>, zero: S) -> DualQuaternion<S> {
    DualQuaternion {
        q0: HyperDual { re: q.q0.re, e1: zero, e2: q.q0.e2, e1e2: zero },
        q1: HyperDual { re: q.q1.re, e1: zero, e2: q.q1.e2, e1e2: zero },
        q2: HyperDual { re: q.q2.re, e1: zero, e2: q.q2.e2, e1e2: zero },
        q3: HyperDual { re: q.q3.re, e1: zero, e2: q.q3.e2, e1e2: zero },
    }
}

/// `q` with the second sensitivity channel of every component zeroed.
pub open spec fn spec_quat_clear_e2<S>(q: DualQuaternion<S>, zero: S) -> DualQuaternion<S> {
    DualQuaternion {
        q0: HyperDual { re: q.q0.re, e1: q.q0.e1, e2: zero, e1e2: zero },
        q1: HyperDual { re: q.q1.re, e1: q.q1.e1, e2: zero, e1e2: zero },
        q2: HyperDual { re: q.q2.re, e1: q.q2.e1, e2: zero, e1e2: zero },
        q3: HyperDual { re: q.q3.re, e1: q.q3.e1, e2: zero, e1e2: zero },
    }
}

/// `q` with all sensitivity channels of every component zeroed.
pub open spec fn spec_quat_clear_both<S>(q: DualQuaternion<S>, zero: S) -> DualQuaternion<S> {
    DualQuaternion {
        q0: HyperDual { re: q.q0.re, e1: zero, e2: zero, e1e2: zero },
        q1: HyperDual { re: q.q1.re, e1: zero, e2: zero, e1e2: zero },
        q2: HyperDual { re: q.q2.re, e1: zero, e2: zero, e1e2: zero },
        q3: HyperDual { re: q.q3.re, e1: zero, e2: zero, e1e2: zero },
    }
}

/// `q` with the two first-order channels of every component exchanged.
pub open spec fn spec_quat_swap<S>(q: DualQuaternion<S>) -> DualQuaternion<S> {
    DualQuaternion {
        q0: HyperDual { re: q.q0.re, e1: q.q0.e2, e2: q.q0.e1, e1e2: q.q0.e1e2 },
        q1: HyperDual { re: q.q1.re, e1: q.q1.e2, e2: q.q1.e1, e1e2: q.q1.e1e2 },
        q2: HyperDual { re: q.q2.re, e1: q.q2.e2, e2: q.q2.e1, e1e2: q.q2.e1e2 },
        q3: HyperDual { re: q.q3.re, e1: q.q3.e2, e2: q.q3.e1, e1e2: q.q3.e1e2 },
    }
}

/// Holds an object's orientation quaternion with all of its partial
/// derivatives with respect to the rotation variables.
#[derive(Clone, Copy, Debug)]
pub struct Quaternion<S> {
    /// Pair (phi, phi): `e1` and `e2` both seeded on phi.
    pub phi_phi: DualQuaternion<S>,
    /// Pair (phi, theta): `e1` seeded on phi, `e2` on theta.
    pub phi_theta: DualQuaternion<S>,
    /// Pair (phi, psi): `e1` seeded on phi, `e2` on psi.
    pub phi_psi: DualQuaternion<S>,
    /// Pair (theta, theta): `e1` and `e2` both seeded on theta.
    pub theta_theta: DualQuaternion<S>,
    /// Pair (theta, psi): `e1` seeded on theta, `e2` on psi.
    pub theta_psi: DualQuaternion<S>,
    /// Pair (psi, psi): `e1` and `e2` both seeded on psi.
    pub psi_psi: DualQuaternion<S>,
    /// The algebra's additive identity, used to clear channels.
    pub zero: S,
    /// The algebra's multiplicative identity, used to seed channels.
    pub one: S,
}

/// The stored entry of the cache for the ordered storage pair `(a, b)` of
/// rotation axes (`0 = phi`, `1 = theta`, `2 = psi`), with `a <= b`.
pub open spec fn stored_quat_entry<S>(c: Quaternion<S>, a: int, b: int) -> DualQuaternion<S> {
    if a == 0 && b == 0 {
        c.phi_phi
    } else if a == 0 && b == 1 {
        c.phi_theta
    } else if a == 0 && b == 2 {
        c.phi_psi
    } else if a == 1 && b == 1 {
        c.theta_theta
    } else if a == 1 && b == 2 {
        c.theta_psi
    } else {
        c.psi_psi
    }
}

/// The storage position of a requested variable, or `-1` when the request
/// names no rotation axis and the lookup must treat it as a constant.
pub open spec fn rotation_ord(v: Option<VariableName>) -> int {
    match v {
        Some(n) => if is_rotation_axis(n) {
            variable_ord(n) - 3
        } else {
            -1
        },
        None => -1,
    }
}

/// What a cache lookup for the (possibly constant-tagged, possibly reversed)
/// pair of variables returns: the stored entry for the pair in storage order,
/// with channels swapped when the request reverses it and zeroed where the
/// request asks for a constant.
pub open spec fn spec_get_quaternion<S>(
    c: Quaternion<S>,
    var1: Option<VariableName>,
    var2: Option<VariableName>,
) -> DualQuaternion<S> {
    let a = rotation_ord(var1);
    let b = rotation_ord(var2);
    if a >= 0 && b >= 0 {
        if a <= b {
            stored_quat_entry(c, a, b)
        } else {
            spec_quat_swap(stored_quat_entry(c, b, a))
        }
    } else if a >= 0 {
        spec_quat_clear_e2(stored_quat_entry(c, a, a), c.zero)
    } else if b >= 0 {
        spec_quat_clear_e1(stored_quat_entry(c, b, b), c.zero)
    } else {
        spec_quat_clear_both(c.phi_phi, c.zero)
    }
}

/// What a refresh of the cache guarantees about the six stored combinations
/// for the given rotation variables.
///
/// The quaternion construction itself is a supplied operation whose result is
/// not specified here, so the refresh is pinned down through the equalities
/// that its reuse of computed entries produces: wherever a variable acts as a
/// constant, the degenerate combination coincides with (or is a
/// channel-zeroed copy of) another stored entry instead of being evaluated
/// afresh.
pub open spec fn quaternion_refreshed<S>(
    c: Quaternion<S>,
    phi: Variable<S>,
    theta: Variable<S>,
    psi: Variable<S>,
) -> bool {
    &&& is_constant(phi) && is_constant(theta) ==> c.phi_theta == c.phi_phi && c.phi_phi
        == c.theta_theta
    &&& is_constant(phi) && is_constant(psi) ==> c.phi_psi == c.phi_phi && c.phi_phi == c.psi_psi
    &&& is_constant(theta) && is_constant(psi) ==> c.theta_psi == c.theta_theta && c.theta_theta
        == c.psi_psi
    &&& !is_constant(phi) && is_constant(theta) ==> c.phi_theta == spec_quat_clear_e2(
        c.phi_phi,
        c.zero,
    )
    &&& !is_constant(phi) && is_constant(psi) ==> c.phi_psi == spec_quat_clear_e2(
        c.phi_phi,
        c.zero,
    )
    &&& !is_constant(theta) && is_constant(psi) ==> c.theta_psi == spec_quat_clear_e2(
        c.theta_theta,
        c.zero,
    )
}

/// Requesting an unordered pair of distinct rotation variables in either
/// order yields exact channel transposes: the correctness of the flip/swap
/// path.
pub proof fn lemma_quaternion_get_transpose<S>(c: Quaternion<S>, a: VariableName, b: VariableName)
    requires
        is_rotation_axis(a),
        is_rotation_axis(b),
        a != b,
    ensures
        spec_get_quaternion(c, Some(a), Some(b)) == spec_quat_swap(
            spec_get_quaternion(c, Some(b), Some(a)),
        ),
{
}

impl<S: DualAlgebra> Quaternion<S> {
    /// A fresh cache with every entry zeroed.
    pub fn new() -> (c: Quaternion<S>)
        ensures
            c.phi_phi == spec_quat_uniform(c.zero),
            c.phi_theta == spec_quat_uniform(c.zero),
            c.phi_psi == spec_quat_uniform(c.zero),
            c.theta_theta == spec_quat_uniform(c.zero),
            c.theta_psi == spec_quat_uniform(c.zero),
            c.psi_psi == spec_quat_uniform(c.zero),
    {
        let zero = S::zero();
        let one = S::one();
        let empty = DualQuaternion {
            q0: HyperDual { re: zero, e1: zero, e2: zero, e1e2: zero },
            q1: HyperDual { re: zero, e1: zero, e2: zero, e1e2: zero },
            q2: HyperDual { re: zero, e1: zero, e2: zero, e1e2: zero },
            q3: HyperDual { re: zero, e1: zero, e2: zero, e1e2: zero },
        };
        Quaternion {
            phi_phi: empty,
            phi_theta: empty,
            phi_psi: empty,
            theta_theta: empty,
            theta_psi: empty,
            psi_psi: empty,
            zero,
            one,
        }
    }

    /// Recomputes the six stored combinations from the three rotation
    /// variables, honoring each variable's locked/enabled state.
    ///
    /// Only the combinations that actually need fresh sensitivities are built
    /// from angles; where a variable acts as a constant, the entry is derived
    /// from an already computed one by zeroing channels, which the contract
    /// states as equalities between the stored entries.  What the supplied
    /// quaternion construction itself returns is the host's affair and is not
    /// specified here.
    pub fn evaluate_quaternion(
        &mut self,
        phi_var: &Variable<S>,
        theta_var: &Variable<S>,
        psi_var: &Variable<S>,
    )
        ensures
            final(self).zero == old(self).zero,
            final(self).one == old(self).one,
            quaternion_refreshed(*final(self), *phi_var, *theta_var, *psi_var),
    {
        let zero = self.zero;
        let one = self.one;
        let phi_live = !(phi_var.locked || !phi_var.enabled);
        let theta_live = !(theta_var.locked || !theta_var.enabled);
        let psi_live = !(psi_var.locked || !psi_var.enabled);

        let phi = HyperDual::seeded(phi_var.value, false, false, zero, one);
        let theta = HyperDual::seeded(theta_var.value, false, false, zero, one);
        let psi = HyperDual::seeded(psi_var.value, false, false, zero, one);

        // The quaternion with every angle treated as a constant.
        let const_const = S::quat_from_angles(phi, theta, psi);

        // Combinations that pair phi with phi, theta and psi.
        if !phi_live {
            self.phi_phi = const_const;
            if !theta_live {
                self.phi_theta = const_const;
            } else {
                self.phi_theta = S::quat_from_angles(
                    phi,
                    HyperDual::seeded(theta_var.value, false, true, zero, one),
                    psi,
                );
            }
            if !psi_live {
                self.phi_psi = const_const;
            } else {
                self.phi_psi = S::quat_from_angles(
                    phi,
                    theta,
                    HyperDual::seeded(psi_var.value, false, true, zero, one),
                );
            }
        } else {
            self.phi_phi = S::quat_from_angles(
                HyperDual::seeded(phi_var.value, true, true, zero, one),
                theta,
                psi,
            );
            if !theta_live {
                let mut derived = self.phi_phi;
                remove_e2(&mut derived, zero);
                self.phi_theta = derived;
            } else {
                self.phi_theta = S::quat_from_angles(
                    HyperDual::seeded(phi_var.value, true, false, zero, one),
                    HyperDual::seeded(theta_var.value, false, true, zero, one),
                    psi,
                );
            }
            if !psi_live {
                let mut derived = self.phi_phi;
                remove_e2(&mut derived, zero);
                self.phi_psi = derived;
            } else {
                self.phi_psi = S::quat_from_angles(
                    HyperDual::seeded(phi_var.value, true, false, zero, one),
                    theta,
                    HyperDual::seeded(psi_var.value, false, true, zero, one),
                );
            }
        }

        // Combinations that pair theta with theta and psi.
        if !theta_live {
            self.theta_theta = const_const;
            if !psi_live {
                self.theta_psi = const_const;
            } else {
                self.theta_psi = S::quat_from_angles(
                    phi,
                    theta,
                    HyperDual::seeded(psi_var.value, false, true, zero, one),
                );
            }
        } else {
            self.theta_theta = S::quat_from_angles(
                phi,
                HyperDual::seeded(theta_var.value, true, true, zero, one),
                psi,
            );
            if !psi_live {
                let mut derived = self.theta_theta;
                remove_e2(&mut derived, zero);
                self.theta_psi = derived;
            } else {
                self.theta_psi = S::quat_from_angles(
                    phi,
                    HyperDual::seeded(theta_var.value, true, false, zero, one),
                    HyperDual::seeded(psi_var.value, false, true, zero, one),
                );
            }
        }

        // The remaining combination pairs psi with itself.
        if !psi_live {
            self.psi_psi = const_const;
        } else {
            self.psi_psi = S::quat_from_angles(
                phi,
                theta,
                HyperDual::seeded(psi_var.value, true, true, zero, one),
            );
        }
    }

    /// The stored (phi, phi) combination: `e1` is phi, `e2` is phi.
    pub fn get_phi_phi(&self) -> (r: DualQuaternion<S>)
        ensures
            r == self.phi_phi,
    {
        self.phi_phi
    }

    /// The stored (phi, theta) combination: `e1` is phi, `e2` is theta.
    pub fn get_phi_theta(&self) -> (r: DualQuaternion<S>)
        ensures
            r == self.phi_theta,
    {
        self.phi_theta
    }

    /// The stored (phi, psi) combination: `e1` is phi, `e2` is psi.
    pub fn get_phi_psi(&self) -> (r: DualQuaternion<S>)
        ensures
            r == self.phi_psi,
    {
        self.phi_psi
    }

    /// The (phi, constant) combination: `e1` is phi, `e2` carries nothing.
    pub fn get_phi_const(&self) -> (r: DualQuaternion<S>)
        ensures
            r == spec_quat_clear_e2(self.phi_phi, self.zero),
    {
        let mut phi_const = self.phi_phi;
        remove_e2(&mut phi_const, self.zero);
        phi_const
    }

    /// The (theta, phi) combination, served by swapping the stored
    /// (phi, theta) entry.
    pub fn get_theta_phi(&self) -> (r: DualQuaternion<S>)
        ensures
            r == spec_quat_swap(self.phi_theta),
    {
        let mut theta_phi = self.phi_theta;
        flip_e1_e2(&mut theta_phi);
        theta_phi
    }

    /// The stored (theta, theta) combination: `e1` is theta, `e2` is theta.
    pub fn get_theta_theta(&self) -> (r: DualQuaternion<S>)
        ensures
            r == self.theta_theta,
    {
        self.theta_theta
    }

    /// The stored (theta, psi) combination: `e1` is theta, `e2` is psi.
    pub fn get_theta_psi(&self) -> (r: DualQuaternion<S>)
        ensures
            r == self.theta_psi,
    {
        self.theta_psi
    }

    /// The (theta, constant) combination: `e1` is theta, `e2` carries
    /// nothing.
    pub fn get_theta_const(&self) -> (r: DualQuaternion<S>)
        ensures
            r == spec_quat_clear_e2(self.theta_theta, self.zero),
    {
        let mut theta_const = self.theta_theta;
        remove_e2(&mut theta_const, self.zero);
        theta_const
    }

    /// The (psi, phi) combination, served by swapping the stored (phi, psi)
    /// entry.
    pub fn get_psi_phi(&self) -> (r: DualQuaternion<S>)
        ensures
            r == spec_quat_swap(self.phi_psi),
    {
        let mut psi_phi = self.phi_psi;
        flip_e1_e2(&mut psi_phi);
        psi_phi
    }

    /// The (psi, theta) combination, served by swapping the stored
    /// (theta, psi) entry.
    pub fn get_psi_theta(&self) -> (r: DualQuaternion<S>)
        ensures
            r == spec_quat_swap(self.theta_psi),
    {
        let mut psi_theta = self.theta_psi;
        flip_e1_e2(&mut psi_theta);
        psi_theta
    }

    /// The stored (psi, psi) combination: `e1` is psi, `e2` is psi.
    pub fn get_psi_psi(&self) -> (r: DualQuaternion<S>)
        ensures
            r == self.psi_psi,
    {
        self.psi_psi
    }

    /// The (psi, constant) combination: `e1` is psi, `e2` carries nothing.
    pub fn get_psi_const(&self) -> (r: DualQuaternion<S>)
        ensures
            r == spec_quat_clear_e2(self.psi_psi, self.zero),
    {
        let mut psi_const = self.psi_psi;
        remove_e2(&mut psi_const, self.zero);
        psi_const
    }

    /// The (constant, phi) combination: `e1` carries nothing, `e2` is phi.
    pub fn get_const_phi(&self) -> (r: DualQuaternion<S>)
        ensures
            r == spec_quat_clear_e1(self.phi_phi, self.zero),
    {
        let mut const_phi = self.phi_phi;
        remove_e1(&mut const_phi, self.zero);
        const_phi
    }

    /// The (constant, theta) combination: `e1` carries nothing, `e2` is
    /// theta.
    pub fn get_const_theta(&self) -> (r: DualQuaternion<S>)
        ensures
            r == spec_quat_clear_e1(self.theta_theta, self.zero),
    {
        let mut const_theta = self.theta_theta;
        remove_e1(&mut const_theta, self.zero);
        const_theta
    }

    /// The (constant, psi) combination: `e1` carries nothing, `e2` is psi.
    pub fn get_const_psi(&self) -> (r: DualQuaternion<S>)
        ensures
            r == spec_quat_clear_e1(self.psi_psi, self.zero),
    {
        let mut const_psi = self.psi_psi;
        remove_e1(&mut const_psi, self.zero);
        const_psi
    }

    /// The fully constant combination: the plain orientation quaternion with
    /// no sensitivities at all.
    pub fn get_const_const(&self) -> (r: DualQuaternion<S>)
        ensures
            r == spec_quat_clear_both(self.phi_phi, self.zero),
    {
        let mut const_const = self.phi_phi;
        remove_e1_e2(&mut const_const, self.zero);
        const_const
    }
}

/// Zeroes the first-variable sensitivities (`e1` and `e1e2`) of a
/// quaternion, for serving a lookup whose first variable is a constant.
fn remove_e1<S: Copy>(q: &mut DualQuaternion<S>, zero: S)
    ensures
        *final(q) == (spec_quat_clear_e1(*old(q), zero)),
{
    q.q0.e1 = zero;
    q.q1.e1 = zero;
    q.q2.e1 = zero;
    q.q3.e1 = zero;
    q.q0.e1e2 = zero;
    q.q1.e1e2 = zero;
    q.q2.e1e2 = zero;
    q.q3.e1e2 = zero;
}

/// Zeroes the second-variable sensitivities (`e2` and `e1e2`) of a
/// quaternion, for serving a lookup whose second variable is a constant.
fn remove_e2<S: Copy>(q: &mut DualQuaternion<S>, zero: S)
    ensures
        *final(q) == (spec_quat_clear_e2(*old(q), zero)),
{
    q.q0.e2 = zero;
    q.q1.e2 = zero;
    q.q2.e2 = zero;
    q.q3.e2 = zero;
    q.q0.e1e2 = zero;
    q.q1.e1e2 = zero;
    q.q2.e1e2 = zero;
    q.q3.e1e2 = zero;
}

/// Zeroes every sensitivity of a quaternion, for serving a lookup in which
/// both variables are constants.
fn remove_e1_e2<S: Copy>(q: &mut DualQuaternion<S>, zero: S)
    ensures
        *final(q) == (spec_quat_clear_both(*old(q), zero)),
{
    q.q0.e1 = zero;
    q.q1.e1 = zero;
    q.q2.e1 = zero;
    q.q3.e1 = zero;
    q.q0.e2 = zero;
    q.q1.e2 = zero;
    q.q2.e2 = zero;
    q.q3.e2 = zero;
    q.q0.e1e2 = zero;
    q.q1.e1e2 = zero;
    q.q2.e1e2 = zero;
    q.q3.e1e2 = zero;
}

/// Exchanges the two first-order channels of every component, for serving a
/// lookup that reverses the storage order of its pair.
fn flip_e1_e2<S: Copy>(q: &mut DualQuaternion<S>)
    ensures
        *final(q) == (spec_quat_swap(*old(q))),
{
    let mut old_e1: S = q.q0.e1;
    q.q0.e1 = q.q0.e2;
    q.q0.e2 = old_e1;
    old_e1 = q.q1.e1;
    q.q1.e1 = q.q1.e2;
    q.q1.e2 = old_e1;
    old_e1 = q.q2.e1;
    q.q2.e1 = q.q2.e2;
    q.q2.e2 = old_e1;
    old_e1 = q.q3.e1;
    q.q3.e1 = q.q3.e2;
    q.q3.e2 = old_e1;
}

} // verus!
