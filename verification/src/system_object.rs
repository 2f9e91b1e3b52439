//! Objects of the constraint system and the names of their variables.
//!
//! A [`SystemObject`] bundles the six placement variables of one rigid body
//! with the two per-object derivative caches (position vector and orientation
//! quaternion) that constraints read while evaluating.

use vstd::prelude::*;

use crate::geometry::quaternion::{
    quaternion_refreshed, spec_get_quaternion, spec_quat_uniform, Quaternion,
};
use crate::geometry::vector::{spec_get_vector, spec_vec_uniform, vector_refreshed, Vector};
use crate::number_system::{DualAlgebra, DualQuaternion, DualVector};
use crate::system::{axis_present, AxisValues, Variable};

verus! {

/// Names of the six placement variables of an object.
///
/// The first three are the global position axes, the last three the rotation
/// angles about them.
#[allow(non_camel_case_types)]
#[derive(Clone, Copy, Debug, PartialEq, Eq, Structural)]
pub enum VariableName {
    x,
    y,
    z,
    phi,
    theta,
    psi,
}

/// The fixed ordering of the six variable names.
pub open spec fn variable_order(i: int) -> VariableName {
    if i == 0 {
        VariableName::x
    } else if i == 1 {
        VariableName::y
    } else if i == 2 {
        VariableName::z
    } else if i == 3 {
        VariableName::phi
    } else if i == 4 {
        VariableName::theta
    } else {
        VariableName::psi
    }
}

/// The position of a variable name in the fixed ordering.
pub open spec fn variable_ord(a: VariableName) -> int {
    match a {
        VariableName::x => 0,
        VariableName::y => 1,
        VariableName::z => 2,
        VariableName::phi => 3,
        VariableName::theta => 4,
        VariableName::psi => 5,
    }
}

/// Whether a name is one of the three position axes.
pub open spec fn is_position_axis(a: VariableName) -> bool {
    variable_ord(a) < 3
}

/// Whether a name is one of the three rotation angles.
pub open spec fn is_rotation_axis(a: VariableName) -> bool {
    variable_ord(a) >= 3
}

/// The two orderings are inverse to each other.
pub proof fn lemma_variable_order_ord(a: VariableName)
    ensures
        variable_order(variable_ord(a)) == a,
        0 <= variable_ord(a) < 6,
{
}

/// The variable name at a position of the fixed ordering, as executable
/// code.
pub fn variable_at(i: usize) -> (a: VariableName)
    requires
        i < 6,
    ensures
        a == variable_order(i as int),
{
    match i {
        0 => VariableName::x,
        1 => VariableName::y,
        2 => VariableName::z,
        3 => VariableName::phi,
        4 => VariableName::theta,
        _ => VariableName::psi,
    }
}

/// Whether a character sequence spells one of the six variable names.
pub open spec fn is_variable_name(s: Seq<char>) -> bool {
    ||| s == "x"@
    ||| s == "y"@
    ||| s == "z"@
    ||| s == "phi"@
    ||| s == "theta"@
    ||| s == "psi"@
}

/// The variable name a character sequence spells.
pub open spec fn spec_name_of(s: Seq<char>) -> VariableName {
    if s == "x"@ {
        VariableName::x
    } else if s == "y"@ {
        VariableName::y
    } else if s == "z"@ {
        VariableName::z
    } else if s == "phi"@ {
        VariableName::phi
    } else if s == "theta"@ {
        VariableName::theta
    } else {
        VariableName::psi
    }
}

/// Character-by-character string comparison.
///
/// `==` on `&str` carries no specification, so name lookups in the system go
/// through this helper instead.
pub fn str_eq(a: &str, b: &str) -> (r: bool)
    ensures
        r == (a@ == b@),
{
    let a_len = a.unicode_len();
    let b_len = b.unicode_len();
    if a_len != b_len {
        assert(a@ != b@) by {
            assert(a@.len() != b@.len());
        }
        return false;
    }
    let mut i: usize = 0;
    while i < a_len
        invariant
            i <= a_len,
            a_len == a@.len(),
            b_len == b@.len(),
            a_len == b_len,
            forall|j: int| 0 <= j < i ==> a@.index(j) == b@.index(j),
        decreases a_len - i,
    {
        if a.get_char(i) != b.get_char(i) {
            assert(a@ != b@);
            return false;
        }
        i = i + 1;
    }
    assert(a@ =~= b@);
    true
}

impl VariableName {
    /// The variable name spelled by the input text.
    ///
    /// The caller must pass one of the six names; anything else is outside
    /// this function's contract.
    pub fn get_from_str(variable: &str) -> (r: VariableName)
        requires
            is_variable_name(variable@),
        ensures
            r == spec_name_of(variable@),
    {
        proof {
            reveal_strlit("x");
            reveal_strlit("y");
            reveal_strlit("z");
            reveal_strlit("phi");
            reveal_strlit("theta");
            reveal_strlit("psi");
        }
        if str_eq(variable, "x") {
            VariableName::x
        } else if str_eq(variable, "y") {
            VariableName::y
        } else if str_eq(variable, "z") {
            VariableName::z
        } else if str_eq(variable, "phi") {
            VariableName::phi
        } else if str_eq(variable, "theta") {
            VariableName::theta
        } else {
            VariableName::psi
        }
    }

    /// An iterator over all six variable names, in the fixed order.
    pub fn get_variable_iter() -> (it: VariableNameIter)
        ensures
            it.pos() == 0,
    {
        VariableNameIter { index: 0 }
    }

    /// An iterator over the position variable names `x`, `y`, `z`.
    pub fn get_position_iter() -> (it: PositionVariableNameIter)
        ensures
            it.pos() == 0,
    {
        PositionVariableNameIter { index: 0 }
    }

    /// An iterator over the rotation variable names `phi`, `theta`, `psi`.
    pub fn get_rotation_iter() -> (it: RotationVariableNameIter)
        ensures
            it.pos() == 0,
    {
        RotationVariableNameIter { index: 0 }
    }
}

/// Yields the six variable names in the fixed order.
pub struct VariableNameIter {
    index: u8,
}

impl VariableNameIter {
    /// How many names have been yielded so far.
    pub closed spec fn pos(self) -> int {
        self.index as int
    }

    /// The next variable name, or `None` once all six are out.
    pub fn next(&mut self) -> (r: Option<VariableName>)
        ensures
            old(self).pos() < 6 ==> r == Some(variable_order(old(self).pos()))
                && final(self).pos() == old(self).pos() + 1,
            old(self).pos() >= 6 ==> r == None::<VariableName> && *final(self) == *old(self),
    {
        let var_idx = match self.index {
            0 => VariableName::x,
            1 => VariableName::y,
            2 => VariableName::z,
            3 => VariableName::phi,
            4 => VariableName::theta,
            5 => VariableName::psi,
            _ => { return None; },
        };
        self.index = self.index + 1;
        Some(var_idx)
    }
}

/// Yields the three position variable names.
pub struct PositionVariableNameIter {
    index: u8,
}

impl PositionVariableNameIter {
    /// How many names have been yielded so far.
    pub closed spec fn pos(self) -> int {
        self.index as int
    }

    /// The next position variable name, or `None` once all three are out.
    pub fn next(&mut self) -> (r: Option<VariableName>)
        ensures
            old(self).pos() < 3 ==> r == Some(variable_order(old(self).pos()))
                && final(self).pos() == old(self).pos() + 1,
            old(self).pos() >= 3 ==> r == None::<VariableName> && *final(self) == *old(self),
    {
        let var_idx = match self.index {
            0 => VariableName::x,
            1 => VariableName::y,
            2 => VariableName::z,
            _ => { return None; },
        };
        self.index = self.index + 1;
        Some(var_idx)
    }
}

/// Yields the three rotation variable names.
pub struct RotationVariableNameIter {
    index: u8,
}

impl RotationVariableNameIter {
    /// How many names have been yielded so far.
    pub closed spec fn pos(self) -> int {
        self.index as int
    }

    /// The next rotation variable name, or `None` once all three are out.
    pub fn next(&mut self) -> (r: Option<VariableName>)
        ensures
            old(self).pos() < 3 ==> r == Some(variable_order(old(self).pos() + 3))
                && final(self).pos() == old(self).pos() + 1,
            old(self).pos() >= 3 ==> r == None::<VariableName> && *final(self) == *old(self),
    {
        let var_idx = match self.index {
            0 => VariableName::phi,
            1 => VariableName::theta,
            2 => VariableName::psi,
            _ => { return None; },
        };
        self.index = self.index + 1;
        Some(var_idx)
    }
}


/// Stores the six variables of an object.
#[derive(Clone, Copy, Debug)]
pub struct ObjectVariables<S> {
    /// The global x-axis position of the object.
    pub x: Variable<S>,
    /// The global y-axis position of the object.
    pub y: Variable<S>,
    /// The global z-axis position of the object.
    pub z: Variable<S>,
    /// The global rotation angle about the x-axis.
    pub phi: Variable<S>,
    /// The global rotation angle about the y-axis.
    pub theta: Variable<S>,
    /// The global rotation angle about the z-axis.
    pub psi: Variable<S>,
}

/// The variable of an object for one axis name.
pub open spec fn axis_var<S>(vars: ObjectVariables<S>, a: VariableName) -> Variable<S> {
    match a {
        VariableName::x => vars.x,
        VariableName::y => vars.y,
        VariableName::z => vars.z,
        VariableName::phi => vars.phi,
        VariableName::theta => vars.theta,
        VariableName::psi => vars.psi,
    }
}

/// The object's variables with the one for `a` replaced by `v`.
pub open spec fn spec_set_axis<S>(
    vars: ObjectVariables<S>,
    a: VariableName,
    v: Variable<S>,
) -> ObjectVariables<S> {
    match a {
        VariableName::x => ObjectVariables { x: v, ..vars },
        VariableName::y => ObjectVariables { y: v, ..vars },
        VariableName::z => ObjectVariables { z: v, ..vars },
        VariableName::phi => ObjectVariables { phi: v, ..vars },
        VariableName::theta => ObjectVariables { theta: v, ..vars },
        VariableName::psi => ObjectVariables { psi: v, ..vars },
    }
}

/// Replacing one axis's variable touches no other axis.
pub proof fn lemma_set_axis_frame<S>(vars: ObjectVariables<S>, name: VariableName, v: Variable<S>)
    ensures
        axis_var(spec_set_axis(vars, name, v), name) == v,
        forall|b: VariableName|
            b != name ==> axis_var(spec_set_axis(vars, name, v), b) == axis_var(vars, b),
{
}

impl<S: DualAlgebra> ObjectVariables<S> {
    /// Six fresh variables: disabled, unlocked, unaliased.
    pub fn new() -> (vars: ObjectVariables<S>)
        ensures
            forall|a: VariableName| !axis_var(vars, a).enabled,
            forall|a: VariableName| !axis_var(vars, a).locked,
            forall|a: VariableName| axis_var(vars, a).equal.is_none(),
            forall|a: VariableName| axis_var(vars, a).index == 0,
            forall|a: VariableName|
                axis_var(vars, a).value == axis_var(vars, a).initial_value,
    {
        ObjectVariables {
            x: Variable::new(),
            y: Variable::new(),
            z: Variable::new(),
            phi: Variable::new(),
            theta: Variable::new(),
            psi: Variable::new(),
        }
    }
}

impl<S> ObjectVariables<S> {
    /// A reference to the variable for one axis name.
    pub fn get_variable(&self, var_name: VariableName) -> (r: &Variable<S>)
        ensures
            *r == axis_var(*self, var_name),
    {
        match var_name {
            VariableName::x => &self.x,
            VariableName::y => &self.y,
            VariableName::z => &self.z,
            VariableName::phi => &self.phi,
            VariableName::theta => &self.theta,
            VariableName::psi => &self.psi,
        }
    }

    /// A mutable reference to the variable for one axis name.
    pub fn get_mut_variable(&mut self, var_name: VariableName) -> (r: &mut Variable<S>)
        ensures
            *r == axis_var(*old(self), var_name),
            *final(self) == (spec_set_axis(*old(self), var_name, *final(r))),
    {
        match var_name {
            VariableName::x => &mut self.x,
            VariableName::y => &mut self.y,
            VariableName::z => &mut self.z,
            VariableName::phi => &mut self.phi,
            VariableName::theta => &mut self.theta,
            VariableName::psi => &mut self.psi,
        }
    }
}

/// One rigid body of the constraint system: its six placement variables and
/// the two derivative caches that constraints read during evaluation.
#[derive(Clone, Copy, Debug)]
pub struct SystemObject<S> {
    /// The variables for the position and rotation of this object.
    pub vars: ObjectVariables<S>,
    /// The cached orientation quaternion of the object with its partial
    /// derivatives, read by constraint evaluations.
    pub q_vals: Quaternion<S>,
    /// While enabled, `q_vals` is recomputed on every iteration; a disabled
    /// cache is never refreshed, so nothing may read it.
    pub q_enable: bool,
    /// The cached position vector of the object with its partial
    /// derivatives, read by constraint evaluations.
    pub v_vals: Vector<S>,
    /// While enabled, `v_vals` is recomputed on every iteration.
    pub v_enable: bool,
}

/// Both objects' caches disabled and everything but the given variables as
/// before: the common frame of the variable-state mutators below.
pub open spec fn same_but_vars<S>(
    post: SystemObject<S>,
    pre: SystemObject<S>,
) -> bool {
    &&& post.q_vals == pre.q_vals
    &&& post.v_vals == pre.v_vals
    &&& post.q_enable == pre.q_enable
    &&& post.v_enable == pre.v_enable
}

impl<S: DualAlgebra> SystemObject<S> {
    /// A fresh object: six fresh variables, caches zeroed and disabled.
    pub fn new() -> (o: SystemObject<S>)
        ensures
            forall|a: VariableName| !axis_var(o.vars, a).enabled,
            forall|a: VariableName| !axis_var(o.vars, a).locked,
            forall|a: VariableName| axis_var(o.vars, a).equal.is_none(),
            forall|a: VariableName| axis_var(o.vars, a).index == 0,
            forall|a: VariableName|
                axis_var(o.vars, a).value == axis_var(o.vars, a).initial_value,
            !o.q_enable,
            !o.v_enable,
            o.v_vals.x_x == spec_vec_uniform(o.v_vals.zero),
            o.v_vals.x_y == spec_vec_uniform(o.v_vals.zero),
            o.v_vals.x_z == spec_vec_uniform(o.v_vals.zero),
            o.v_vals.y_y == spec_vec_uniform(o.v_vals.zero),
            o.v_vals.y_z == spec_vec_uniform(o.v_vals.zero),
            o.v_vals.z_z == spec_vec_uniform(o.v_vals.zero),
            o.q_vals.phi_phi == spec_quat_uniform(o.q_vals.zero),
            o.q_vals.phi_theta == spec_quat_uniform(o.q_vals.zero),
            o.q_vals.phi_psi == spec_quat_uniform(o.q_vals.zero),
            o.q_vals.theta_theta == spec_quat_uniform(o.q_vals.zero),
            o.q_vals.theta_psi == spec_quat_uniform(o.q_vals.zero),
            o.q_vals.psi_psi == spec_quat_uniform(o.q_vals.zero),
    {
        SystemObject {
            vars: ObjectVariables::new(),
            q_vals: Quaternion::new(),
            q_enable: false,
            v_vals: Vector::new(),
            v_enable: false,
        }
    }

    /// Marks the named variables of this object enabled.  Idempotent; every
    /// other variable and every other field stays as it was.
    #[verifier::rlimit(50)]
    pub fn enable_variables(&mut self, variables: &[VariableName])
        ensures
            same_but_vars(*final(self), *old(self)),
            forall|a: VariableName|
                variables@.contains(a) ==> axis_var(final(self).vars, a) == (Variable {
                    enabled: true,
                    ..axis_var(old(self).vars, a)
                }),
            forall|a: VariableName|
                !variables@.contains(a) ==> axis_var(final(self).vars, a) == axis_var(
                    old(self).vars,
                    a,
                ),
    {
        let mut i: usize = 0;
        while i < variables.len()
            invariant
                i <= variables@.len(),
                same_but_vars(*self, *old(self)),
                forall|a: VariableName|
                    (exists|j: int| 0 <= j < i && variables@[j] == a) ==> axis_var(self.vars, a)
                        == (Variable { enabled: true, ..axis_var(old(self).vars, a) }),
                forall|a: VariableName|
                    !(exists|j: int| 0 <= j < i && variables@[j] == a) ==> axis_var(self.vars, a)
                        == axis_var(old(self).vars, a),
            decreases variables@.len() - i,
        {
            let name = variables[i];
            let variable = self.vars.get_mut_variable(name);
            variable.enabled = true;
            i = i + 1;
        }
        proof {
            assert(forall|a: VariableName|
                #[trigger] variables@.contains(a) ==> exists|j: int|
                    0 <= j < variables@.len() && variables@[j] == a);
        }
    }

    /// Marks enabled every variable that the given parameters address.
    ///
    /// Constraint functions enable their variables from a parameter
    /// association whose present axes are exactly the constrained ones.
    pub fn enable_variables_from_params(&mut self, c_params: &AxisValues<S>)
        ensures
            same_but_vars(*final(self), *old(self)),
            forall|a: VariableName|
                axis_present(*c_params, a) ==> axis_var(final(self).vars, a) == (Variable {
                    enabled: true,
                    ..axis_var(old(self).vars, a)
                }),
            forall|a: VariableName|
                !axis_present(*c_params, a) ==> axis_var(final(self).vars, a) == axis_var(
                    old(self).vars,
                    a,
                ),
    {
        let mut vars = self.vars;
        if c_params.x.is_some() {
            vars.x.enabled = true;
        }
        if c_params.y.is_some() {
            vars.y.enabled = true;
        }
        if c_params.z.is_some() {
            vars.z.enabled = true;
        }
        if c_params.phi.is_some() {
            vars.phi.enabled = true;
        }
        if c_params.theta.is_some() {
            vars.theta.enabled = true;
        }
        if c_params.psi.is_some() {
            vars.psi.enabled = true;
        }
        self.vars = vars;
    }

    /// Marks the named variables of this object locked.  Idempotent; every
    /// other variable and every other field stays as it was.
    #[verifier::rlimit(50)]
    pub fn lock_variables(&mut self, variables: &[VariableName])
        ensures
            same_but_vars(*final(self), *old(self)),
            forall|a: VariableName|
                variables@.contains(a) ==> axis_var(final(self).vars, a) == (Variable {
                    locked: true,
                    ..axis_var(old(self).vars, a)
                }),
            forall|a: VariableName|
                !variables@.contains(a) ==> axis_var(final(self).vars, a) == axis_var(
                    old(self).vars,
                    a,
                ),
    {
        let mut i: usize = 0;
        while i < variables.len()
            invariant
                i <= variables@.len(),
                same_but_vars(*self, *old(self)),
                forall|a: VariableName|
                    (exists|j: int| 0 <= j < i && variables@[j] == a) ==> axis_var(self.vars, a)
                        == (Variable { locked: true, ..axis_var(old(self).vars, a) }),
                forall|a: VariableName|
                    !(exists|j: int| 0 <= j < i && variables@[j] == a) ==> axis_var(self.vars, a)
                        == axis_var(old(self).vars, a),
            decreases variables@.len() - i,
        {
            let name = variables[i];
            let variable = self.vars.get_mut_variable(name);
            variable.locked = true;
            i = i + 1;
        }
        proof {
            assert(forall|a: VariableName|
                #[trigger] variables@.contains(a) ==> exists|j: int|
                    0 <= j < variables@.len() && variables@[j] == a);
        }
    }

    /// Records alias targets on the named variables.
    ///
    /// Each entry `(name, (object, target_name))` makes this object's
    /// variable `name` an alias of the target object's variable
    /// `target_name`; the index-assignment pass later copies the target's
    /// index and initial value onto it.  The axis names in the list must be
    /// pairwise distinct.
    pub fn add_equal_indices(&mut self, equal_indices: &[(VariableName, (usize, VariableName))])
        requires
            forall|j: int, k: int|
                0 <= j < k < equal_indices@.len() ==> equal_indices@[j].0 != equal_indices@[k].0,
        ensures
            same_but_vars(*final(self), *old(self)),
            forall|j: int|
                0 <= j < equal_indices@.len() ==> axis_var(final(self).vars, equal_indices@[j].0)
                    == (Variable {
                    equal: Some(equal_indices@[j].1),
                    ..axis_var(old(self).vars, equal_indices@[j].0)
                }),
            forall|a: VariableName|
                (forall|j: int| 0 <= j < equal_indices@.len() ==> equal_indices@[j].0 != a)
                    ==> axis_var(final(self).vars, a) == axis_var(old(self).vars, a),
    {
        let mut i: usize = 0;
        while i < equal_indices.len()
            invariant
                i <= equal_indices@.len(),
                same_but_vars(*self, *old(self)),
                forall|j: int, k: int|
                    0 <= j < k < equal_indices@.len() ==> equal_indices@[j].0 != equal_indices@[
                        k
                    ].0,
                forall|j: int|
                    0 <= j < i ==> axis_var(self.vars, equal_indices@[j].0) == (Variable {
                        equal: Some(equal_indices@[j].1),
                        ..axis_var(old(self).vars, equal_indices@[j].0)
                    }),
                forall|a: VariableName|
                    (forall|j: int| 0 <= j < i ==> equal_indices@[j].0 != a) ==> axis_var(
                        self.vars,
                        a,
                    ) == axis_var(old(self).vars, a),
            decreases equal_indices@.len() - i,
        {
            let (name, indices) = equal_indices[i];
            let variable = self.vars.get_mut_variable(name);
            variable.equal = Some(indices);
            i = i + 1;
        }
    }

    /// Refreshes the rotation quaternion cache of the object.
    ///
    /// Call this after updating the object variables and before any
    /// constraint reads the cache in the same iteration.
    pub fn update_q(&mut self)
        ensures
            final(self).vars == old(self).vars,
            final(self).v_vals == old(self).v_vals,
            final(self).q_enable == old(self).q_enable,
            final(self).v_enable == old(self).v_enable,
            final(self).q_vals.zero == old(self).q_vals.zero,
            final(self).q_vals.one == old(self).q_vals.one,
            quaternion_refreshed(
                final(self).q_vals,
                old(self).vars.phi,
                old(self).vars.theta,
                old(self).vars.psi,
            ),
    {
        let phi = self.vars.phi;
        let theta = self.vars.theta;
        let psi = self.vars.psi;
        self.q_vals.evaluate_quaternion(&phi, &theta, &psi);
    }

    /// Refreshes the position vector cache of the object.
    ///
    /// Call this after updating the object variables and before any
    /// constraint reads the cache in the same iteration.
    pub fn update_v(&mut self)
        ensures
            final(self).vars == old(self).vars,
            final(self).q_vals == old(self).q_vals,
            final(self).q_enable == old(self).q_enable,
            final(self).v_enable == old(self).v_enable,
            final(self).v_vals.zero == old(self).v_vals.zero,
            final(self).v_vals.one == old(self).v_vals.one,
            vector_refreshed(
                final(self).v_vals,
                old(self).vars.x,
                old(self).vars.y,
                old(self).vars.z,
            ),
    {
        let x = self.vars.x;
        let y = self.vars.y;
        let z = self.vars.z;
        self.v_vals.evaluate_vector(&x, &y, &z);
    }
}

impl<S: DualAlgebra> SystemObject<S> {
    /// The cached position vector for a pair of requested variables.
    ///
    /// A request that names no position axis (or passes `None`) is served
    /// with the corresponding sensitivity channel zeroed; a reversed pair is
    /// served by swapping the channels of the stored entry.
    pub fn get_vector(&self, var1: Option<VariableName>, var2: Option<VariableName>) -> (r:
        DualVector<S>)
        ensures
            r == spec_get_vector(self.v_vals, var1, var2),
    {
        match var1 {
            Some(VariableName::x) => match var2 {
                Some(VariableName::x) => self.v_vals.get_x_x(),
                Some(VariableName::y) => self.v_vals.get_x_y(),
                Some(VariableName::z) => self.v_vals.get_x_z(),
                _ => self.v_vals.get_x_const(),
            },
            Some(VariableName::y) => match var2 {
                Some(VariableName::x) => self.v_vals.get_y_x(),
                Some(VariableName::y) => self.v_vals.get_y_y(),
                Some(VariableName::z) => self.v_vals.get_y_z(),
                _ => self.v_vals.get_y_const(),
            },
            Some(VariableName::z) => match var2 {
                Some(VariableName::x) => self.v_vals.get_z_x(),
                Some(VariableName::y) => self.v_vals.get_z_y(),
                Some(VariableName::z) => self.v_vals.get_z_z(),
                _ => self.v_vals.get_z_const(),
            },
            _ => match var2 {
                Some(VariableName::x) => self.v_vals.get_const_x(),
                Some(VariableName::y) => self.v_vals.get_const_y(),
                Some(VariableName::z) => self.v_vals.get_const_z(),
                _ => self.v_vals.get_const_const(),
            },
        }
    }

    /// The cached orientation quaternion for a pair of requested variables.
    ///
    /// A request that names no rotation axis (or passes `None`) is served
    /// with the corresponding sensitivity channel zeroed; a reversed pair is
    /// served by swapping the channels of the stored entry.
    pub fn get_quaternion(&self, var1: Option<VariableName>, var2: Option<VariableName>) -> (r:
        DualQuaternion<S>)
        ensures
            r == spec_get_quaternion(self.q_vals, var1, var2),
    {
        match var1 {
            Some(VariableName::phi) => match var2 {
                Some(VariableName::phi) => self.q_vals.get_phi_phi(),
                Some(VariableName::theta) => self.q_vals.get_phi_theta(),
                Some(VariableName::psi) => self.q_vals.get_phi_psi(),
                _ => self.q_vals.get_phi_const(),
            },
            Some(VariableName::theta) => match var2 {
                Some(VariableName::phi) => self.q_vals.get_theta_phi(),
                Some(VariableName::theta) => self.q_vals.get_theta_theta(),
                Some(VariableName::psi) => self.q_vals.get_theta_psi(),
                _ => self.q_vals.get_theta_const(),
            },
            Some(VariableName::psi) => match var2 {
                Some(VariableName::phi) => self.q_vals.get_psi_phi(),
                Some(VariableName::theta) => self.q_vals.get_psi_theta(),
                Some(VariableName::psi) => self.q_vals.get_psi_psi(),
                _ => self.q_vals.get_psi_const(),
            },
            _ => match var2 {
                Some(VariableName::phi) => self.q_vals.get_const_phi(),
                Some(VariableName::theta) => self.q_vals.get_const_theta(),
                Some(VariableName::psi) => self.q_vals.get_const_psi(),
                _ => self.q_vals.get_const_const(),
            },
        }
    }
}

} // verus!
