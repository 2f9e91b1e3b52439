//! The per-object cache of position vectors with their partial derivatives.
//!
//! For one object the cache stores the six pairwise dual-number combinations
//! of its three position variables: for a stored pair `(a, b)` the vector is
//! built with variable `a` seeded on the first sensitivity channel and
//! variable `b` on the second (both on the same variable when `a == b`), and
//! a variable that is locked or disabled is left unseeded so that it acts as
//! a numeric constant.  The getters then serve every combination of pair,
//! order and "treat as constant" request from those six entries alone, by
//! zeroing or swapping sensitivity channels - no combination is ever
//! recomputed.

use vstd::prelude::*;

use crate::number_system::{
    spec_seeded, DualAlgebra, DualVector, HyperDual,
};
use crate::system::{is_constant, Variable};
use crate::system_object::{is_position_axis, variable_ord, VariableName};

verus! {

/// The vector all of whose dual components hold `z` in every channel.
pub open spec fn spec_vec_uniform<S>(z: S) -> DualVector<S> {
    DualVector {
        x: HyperDual { re: z, e1: z, e2: z, e1e2: z },
        y: HyperDual { re: z, e1: z, e2: z, e1e2: z },
        z: HyperDual { re: z, e1: z, e2: z, e1e2: z },
    }
}

/// `v` with the first sensitivity channel of every component zeroed.
pub open spec fn spec_vec_clear_e1<S>(v: DualVector<S>, zero: S) -> DualVector<S> {
    DualVector {
        x: HyperDual { re: v.x.re, e1: zero, e2: v.x.e2, e1e2: zero },
        y: HyperDual { re: v.y.re, e1: zero, e2: v.y.e2, e1e2: zero },
        z: HyperDual { re: v.z.re, e1: zero, e2: v.z.e2, e1e2: zero },
    }
}

/// `v` with the second sensitivity channel of every component zeroed.
pub open spec fn spec_vec_clear_e2<S>(v: DualVector<S>, zero: S) -> DualVector<S> {
    DualVector {
        x: HyperDual { re: v.x.re, e1: v.x.e1, e2: zero, e1e2: zero },
        y: HyperDual { re: v.y.re, e1: v.y.e1, e2: zero, e1e2: zero },
        z: HyperDual { re: v.z.re, e1: v.z.e1, e2: zero, e1e2: zero },
    }
}

/// `v` with all sensitivity channels of every component zeroed.
pub open spec fn spec_vec_clear_both<S>(v: DualVector<S>, zero: S) -> DualVector<S> {
    DualVector {
        x: HyperDual { re: v.x.re, e1: zero, e2: zero, e1e2: zero },
        y: HyperDual { re: v.y.re, e1: zero, e2: zero, e1e2: zero },
        z: HyperDual { re: v.z.re, e1: zero, e2: zero, e1e2: zero },
    }
}

/// `v` with the two first-order channels of every component exchanged.
pub open spec fn spec_vec_swap<S>(v: DualVector<S>) -> DualVector<S> {
    DualVector {
        x: HyperDual { re: v.x.re, e1: v.x.e2, e2: v.x.e1, e1e2: v.x.e1e2 },
        y: HyperDual { re: v.y.re, e1: v.y.e2, e2: v.y.e1, e1e2: v.y.e1e2 },
        z: HyperDual { re: v.z.re, e1: v.z.e2, e2: v.z.e1, e1e2: v.z.e1e2 },
    }
}

/// The freshly evaluated cache entry for the stored pair `(a, b)` of position
/// axes (`0 = x`, `1 = y`, `2 = z`): component `i` is seeded on the first
/// channel when `a == i`, on the second when `b == i`, and only while the
/// variable is neither locked nor disabled.
pub open spec fn spec_vector_entry<S>(
    x: Variable<S>,
    y: Variable<S>,
    z: Variable<S>,
    a: int,
    b: int,
    zero: S,
    one: S,
) -> DualVector<S> {
    DualVector {
        x: spec_seeded(x.value, a == 0 && !is_constant(x), b == 0 && !is_constant(x), zero, one),
        y: spec_seeded(y.value, a == 1 && !is_constant(y), b == 1 && !is_constant(y), zero, one),
        z: spec_seeded(z.value, a == 2 && !is_constant(z), b == 2 && !is_constant(z), zero, one),
    }
}

/// Holds an object's position vector with all of its partial derivatives.
///
/// The six fields cover the unordered pairs of the position variables in
/// storage order; every other requested combination is derived from them by
/// the getters.
#[derive(Clone, Copy, Debug)]
pub struct Vector<S> {
    /// Pair (x, x): `e1` and `e2` both seeded on x.
    pub x_x: DualVector<S>,
    /// Pair (x, y): `e1` seeded on x, `e2` on y.
    pub x_y: DualVector<S>,
    /// Pair (x, z): `e1` seeded on x, `e2` on z.
    pub x_z: DualVector<S>,
    /// Pair (y, y): `e1` and `e2` both seeded on y.
    pub y_y: DualVector<S>,
    /// Pair (y, z): `e1` seeded on y, `e2` on z.
    pub y_z: DualVector<S>,
    /// Pair (z, z): `e1` and `e2` both seeded on z.
    pub z_z: DualVector<S>,
    /// The algebra's additive identity, used to clear channels.
    pub zero: S,
    /// The algebra's multiplicative identity, used to seed channels.
    pub one: S,
}

/// The stored entry of the cache for the ordered storage pair `(a, b)` with
/// `a <= b`.
pub open spec fn stored_vector_entry<S>(c: Vector<S>, a: int, b: int) -> DualVector<S> {
    if a == 0 && b == 0 {
        c.x_x
    } else if a == 0 && b == 1 {
        c.x_y
    } else if a == 0 && b == 2 {
        c.x_z
    } else if a == 1 && b == 1 {
        c.y_y
    } else if a == 1 && b == 2 {
        c.y_z
    } else {
        c.z_z
    }
}

/// What a cache lookup for the (possibly constant-tagged, possibly reversed)
/// pair of variables returns: the stored entry for the pair in storage order,
/// with channels swapped when the request reverses it and zeroed where the
/// request asks for a constant.  A name that is not a position axis counts as
/// "no variable", exactly like an absent one.
pub open spec fn spec_get_vector<S>(
    c: Vector<S>,
    var1: Option<VariableName>,
    var2: Option<VariableName>,
) -> DualVector<S> {
    let a = position_ord(var1);
    let b = position_ord(var2);
    if a >= 0 && b >= 0 {
        if a <= b {
            stored_vector_entry(c, a, b)
        } else {
            spec_vec_swap(stored_vector_entry(c, b, a))
        }
    } else if a >= 0 {
        spec_vec_clear_e2(stored_vector_entry(c, a, a), c.zero)
    } else if b >= 0 {
        spec_vec_clear_e1(stored_vector_entry(c, b, b), c.zero)
    } else {
        spec_vec_clear_both(c.x_x, c.zero)
    }
}

/// The storage position of a requested variable, or `-1` when the request
/// names no position axis and the lookup must treat it as a constant.
pub open spec fn position_ord(v: Option<VariableName>) -> int {
    match v {
        Some(n) => if is_position_axis(n) {
            variable_ord(n)
        } else {
            -1
        },
        None => -1,
    }
}

/// Whether the cache holds exactly the six combinations that
/// [`Vector::evaluate_vector`] builds from the given position variables.
pub open spec fn vector_refreshed<S>(
    c: Vector<S>,
    x: Variable<S>,
    y: Variable<S>,
    z: Variable<S>,
) -> bool {
    &&& c.x_x == spec_vector_entry(x, y, z, 0, 0, c.zero, c.one)
    &&& c.x_y == spec_vector_entry(x, y, z, 0, 1, c.zero, c.one)
    &&& c.x_z == spec_vector_entry(x, y, z, 0, 2, c.zero, c.one)
    &&& c.y_y == spec_vector_entry(x, y, z, 1, 1, c.zero, c.one)
    &&& c.y_z == spec_vector_entry(x, y, z, 1, 2, c.zero, c.one)
    &&& c.z_z == spec_vector_entry(x, y, z, 2, 2, c.zero, c.one)
}

/// Requesting an unordered pair of distinct position variables in either
/// order yields exact channel transposes: the key correctness fact of the
/// flip/swap path.
pub proof fn lemma_vector_get_transpose<S>(c: Vector<S>, a: VariableName, b: VariableName)
    requires
        is_position_axis(a),
        is_position_axis(b),
        a != b,
    ensures
        spec_get_vector(c, Some(a), Some(b)) == spec_vec_swap(
            spec_get_vector(c, Some(b), Some(a)),
        ),
{
}

impl<S: DualAlgebra> Vector<S> {
    /// A fresh cache with every entry zeroed.
    pub fn new() -> (c: Vector<S>)
        ensures
            c.x_x == spec_vec_uniform(c.zero),
            c.x_y == spec_vec_uniform(c.zero),
            c.x_z == spec_vec_uniform(c.zero),
            c.y_y == spec_vec_uniform(c.zero),
            c.y_z == spec_vec_uniform(c.zero),
            c.z_z == spec_vec_uniform(c.zero),
    {
        let zero = S::zero();
        let one = S::one();
        let empty = DualVector {
            x: HyperDual { re: zero, e1: zero, e2: zero, e1e2: zero },
            y: HyperDual { re: zero, e1: zero, e2: zero, e1e2: zero },
            z: HyperDual { re: zero, e1: zero, e2: zero, e1e2: zero },
        };
        Vector { x_x: empty, x_y: empty, x_z: empty, y_y: empty, y_z: empty, z_z: empty, zero, one }
    }

    /// Recomputes all six stored combinations from the three position
    /// variables, honoring each variable's locked/enabled state.
    pub fn evaluate_vector(&mut self, x_var: &Variable<S>, y_var: &Variable<S>, z_var: &Variable<S>)
        ensures
            final(self).zero == old(self).zero,
            final(self).one == old(self).one,
            vector_refreshed(*final(self), *x_var, *y_var, *z_var),
    {
        self.x_x = build_entry(x_var, y_var, z_var, 0, 0, self.zero, self.one);
        self.x_y = build_entry(x_var, y_var, z_var, 0, 1, self.zero, self.one);
        self.x_z = build_entry(x_var, y_var, z_var, 0, 2, self.zero, self.one);
        self.y_y = build_entry(x_var, y_var, z_var, 1, 1, self.zero, self.one);
        self.y_z = build_entry(x_var, y_var, z_var, 1, 2, self.zero, self.one);
        self.z_z = build_entry(x_var, y_var, z_var, 2, 2, self.zero, self.one);
    }

    /// The stored (x, x) combination: `e1` is x, `e2` is x.
    pub fn get_x_x(&self) -> (r: DualVector<S>)
        ensures
            r == self.x_x,
    {
        self.x_x
    }

    /// The stored (x, y) combination: `e1` is x, `e2` is y.
    pub fn get_x_y(&self) -> (r: DualVector<S>)
        ensures
            r == self.x_y,
    {
        self.x_y
    }

    /// The stored (x, z) combination: `e1` is x, `e2` is z.
    pub fn get_x_z(&self) -> (r: DualVector<S>)
        ensures
            r == self.x_z,
    {
        self.x_z
    }

    /// The (x, constant) combination: `e1` is x, `e2` carries nothing.
    pub fn get_x_const(&self) -> (r: DualVector<S>)
        ensures
            r == spec_vec_clear_e2(self.x_x, self.zero),
    {
        let mut x_const = self.x_x;
        remove_e2(&mut x_const, self.zero);
        x_const
    }

    /// The (y, x) combination, served by swapping the stored (x, y) entry.
    pub fn get_y_x(&self) -> (r: DualVector<S>)
        ensures
            r == spec_vec_swap(self.x_y),
    {
        let mut y_x = self.x_y;
        flip_e1_e2(&mut y_x);
        y_x
    }

    /// The stored (y, y) combination: `e1` is y, `e2` is y.
    pub fn get_y_y(&self) -> (r: DualVector<S>)
        ensures
            r == self.y_y,
    {
        self.y_y
    }

    /// The stored (y, z) combination: `e1` is y, `e2` is z.
    pub fn get_y_z(&self) -> (r: DualVector<S>)
        ensures
            r == self.y_z,
    {
        self.y_z
    }

    /// The (y, constant) combination: `e1` is y, `e2` carries nothing.
    pub fn get_y_const(&self) -> (r: DualVector<S>)
        ensures
            r == spec_vec_clear_e2(self.y_y, self.zero),
    {
        let mut y_const = self.y_y;
        remove_e2(&mut y_const, self.zero);
        y_const
    }

    /// The (z, x) combination, served by swapping the stored (x, z) entry.
    pub fn get_z_x(&self) -> (r: DualVector<S>)
        ensures
            r == spec_vec_swap(self.x_z),
    {
        let mut z_x = self.x_z;
        flip_e1_e2(&mut z_x);
        z_x
    }

    /// The (z, y) combination, served by swapping the stored (y, z) entry.
    pub fn get_z_y(&self) -> (r: DualVector<S>)
        ensures
            r == spec_vec_swap(self.y_z),
    {
        let mut z_y = self.y_z;
        flip_e1_e2(&mut z_y);
        z_y
    }

    /// The stored (z, z) combination: `e1` is z, `e2` is z.
    pub fn get_z_z(&self) -> (r: DualVector<S>)
        ensures
            r == self.z_z,
    {
        self.z_z
    }

    /// The (z, constant) combination: `e1` is z, `e2` carries nothing.
    pub fn get_z_const(&self) -> (r: DualVector<S>)
        ensures
            r == spec_vec_clear_e2(self.z_z, self.zero),
    {
        let mut z_const = self.z_z;
        remove_e2(&mut z_const, self.zero);
        z_const
    }

    /// The (constant, x) combination: `e1` carries nothing, `e2` is x.
    pub fn get_const_x(&self) -> (r: DualVector<S>)
        ensures
            r == spec_vec_clear_e1(self.x_x, self.zero),
    {
        let mut const_x = self.x_x;
        remove_e1(&mut const_x, self.zero);
        const_x
    }

    /// The (constant, y) combination: `e1` carries nothing, `e2` is y.
    pub fn get_const_y(&self) -> (r: DualVector<S>)
        ensures
            r == spec_vec_clear_e1(self.y_y, self.zero),
    {
        let mut const_y = self.y_y;
        remove_e1(&mut const_y, self.zero);
        const_y
    }

    /// The (constant, z) combination: `e1` carries nothing, `e2` is z.
    pub fn get_const_z(&self) -> (r: DualVector<S>)
        ensures
            r == spec_vec_clear_e1(self.z_z, self.zero),
    {
        let mut const_z = self.z_z;
        remove_e1(&mut const_z, self.zero);
        const_z
    }

    /// The fully constant combination: the plain position vector with no
    /// sensitivities at all.
    pub fn get_const_const(&self) -> (r: DualVector<S>)
        ensures
            r == spec_vec_clear_both(self.x_x, self.zero),
    {
        let mut const_const = self.x_x;
        remove_e1_e2(&mut const_const, self.zero);
        const_const
    }
}

/// Builds the cache entry for the stored pair `(a, b)` of position axes.
fn build_entry<S: Copy>(
    x_var: &Variable<S>,
    y_var: &Variable<S>,
    z_var: &Variable<S>,
    a: usize,
    b: usize,
    zero: S,
    one: S,
) -> (r: DualVector<S>)
    requires
        a < 3,
        b < 3,
    ensures
        r == (spec_vector_entry(*x_var, *y_var, *z_var, a as int, b as int, zero, one)),
{
    let x_live = !(x_var.locked || !x_var.enabled);
    let y_live = !(y_var.locked || !y_var.enabled);
    let z_live = !(z_var.locked || !z_var.enabled);
    DualVector {
        x: HyperDual::seeded(x_var.value, a == 0 && x_live, b == 0 && x_live, zero, one),
        y: HyperDual::seeded(y_var.value, a == 1 && y_live, b == 1 && y_live, zero, one),
        z: HyperDual::seeded(z_var.value, a == 2 && z_live, b == 2 && z_live, zero, one),
    }
}

/// Zeroes the first-variable sensitivities (`e1` and `e1e2`) of a vector, for
/// serving a lookup whose first variable is a constant.
fn remove_e1<S: Copy>(v: &mut DualVector<S>, zero: S)
    ensures
        *final(v) == (spec_vec_clear_e1(*old(v), zero)),
{
    v.x.e1 = zero;
    v.y.e1 = zero;
    v.z.e1 = zero;
    v.x.e1e2 = zero;
    v.y.e1e2 = zero;
    v.z.e1e2 = zero;
}

/// Zeroes the second-variable sensitivities (`e2` and `e1e2`) of a vector,
/// for serving a lookup whose second variable is a constant.
fn remove_e2<S: Copy>(v: &mut DualVector<S>, zero: S)
    ensures
        *final(v) == (spec_vec_clear_e2(*old(v), zero)),
{
    v.x.e2 = zero;
    v.y.e2 = zero;
    v.z.e2 = zero;
    v.x.e1e2 = zero;
    v.y.e1e2 = zero;
    v.z.e1e2 = zero;
}

/// Zeroes every sensitivity of a vector, for serving a lookup in which both
/// variables are constants.
fn remove_e1_e2<S: Copy>(v: &mut DualVector<S>, zero: S)
    ensures
        *final(v) == (spec_vec_clear_both(*old(v), zero)),
{
    v.x.e1 = zero;
    v.y.e1 = zero;
    v.z.e1 = zero;
    v.x.e2 = zero;
    v.y.e2 = zero;
    v.z.e2 = zero;
    v.x.e1e2 = zero;
    v.y.e1e2 = zero;
    v.z.e1e2 = zero;
}

/// Exchanges the two first-order channels of every component, for serving a
/// lookup that reverses the storage order of its pair.
fn flip_e1_e2<S: Copy>(v: &mut DualVector<S>)
    ensures
        *final(v) == (spec_vec_swap(*old(v))),
{
    let mut old_e1: S = v.x.e1;
    v.x.e1 = v.x.e2;
    v.x.e2 = old_e1;
    old_e1 = v.y.e1;
    v.y.e1 = v.y.e2;
    v.y.e2 = old_e1;
    old_e1 = v.z.e1;
    v.z.e1 = v.z.e2;
    v.z.e2 = old_e1;
}

} // verus!
