//! Fixes the 3D position (no rotation) of one object with respect to another.
//!
//! The constraint error is `phi(y)^2`, where `y` collects only the variables
//! this constraint actually touches: up to three position axes of the fixed
//! object and all six axes of the reference.  That partial separability is
//! what makes the evaluation cheap: the local gradient and Hessian cover just
//! nine degrees of freedom, every cross term with the rest of the system is
//! identically zero, and one evaluation per unordered local pair (45 in all)
//! recovers the full local Hessian from the mixed second-order channel.

use vstd::prelude::*;

use crate::number_system::{DualAlgebra, DualQuaternion, DualVector, HyperDual};
use crate::system::{axis_entry, axis_present, is_free, AxisValues, Variable};
use crate::system_object::{
    axis_var, variable_at, variable_order, SystemObject, VariableName,
};

verus! {

/// The values fixing the three position axes of the object relative to the
/// reference object's local frame.
#[derive(Clone, Copy, Debug)]
pub struct FixParameters<S> {
    pub x: S,
    pub y: S,
    pub z: S,
}

impl<S: DualAlgebra> FixParameters<S> {
    /// Fresh parameters, all at the algebra's zero.
    pub fn new() -> (p: FixParameters<S>)
        ensures
            p.x == p.y && p.y == p.z,
    {
        let zero = S::zero();
        FixParameters { x: zero, y: zero, z: zero }
    }
}

impl<S: Copy> FixParameters<S> {
    /// Sets the parameter for one position axis; any other name is ignored.
    pub fn set_parameter(&mut self, variable: VariableName, value: S)
        ensures
            variable == VariableName::x ==> *final(self) == (FixParameters {
                x: value,
                ..*old(self)
            }),
            variable == VariableName::y ==> *final(self) == (FixParameters {
                y: value,
                ..*old(self)
            }),
            variable == VariableName::z ==> *final(self) == (FixParameters {
                z: value,
                ..*old(self)
            }),
            variable != VariableName::x && variable != VariableName::y && variable
                != VariableName::z ==> *final(self) == *old(self),
    {
        match variable {
            VariableName::x => self.x = value,
            VariableName::y => self.y = value,
            VariableName::z => self.z = value,
            _ => (),
        }
    }
}

/// The system variable behind local degree of freedom `i` of the constraint:
/// locals 0-2 are the object's position axes, locals 3-8 the reference's six
/// axes, always in that fixed meaning regardless of which are enabled.
pub open spec fn local_var<S>(
    c: FixBaseConstraint<S>,
    objs: Seq<SystemObject<S>>,
    i: int,
) -> Variable<S> {
    if i < 3 {
        axis_var(objs[c.obj_index as int].vars, variable_order(i))
    } else {
        axis_var(objs[c.ref_index as int].vars, variable_order(i - 3))
    }
}

/// The solver indices this constraint's gradient scatter may touch: those of
/// its free (enabled, unlocked) local variables.  A disabled or locked axis
/// contributes to no global cell at all.
pub open spec fn scatter_targets<S>(
    c: FixBaseConstraint<S>,
    objs: Seq<SystemObject<S>>,
) -> Set<int> {
    Set::new(
        |k: int|
            exists|i: int|
                0 <= i < 9 && is_free(#[trigger] local_var(c, objs, i)) && local_var(
                    c,
                    objs,
                    i,
                ).index == k,
    )
}

/// Calculates the squared error fixing one object's position relative to a
/// reference, together with its first and mixed second partial derivatives.
///
/// The scratch gradient has nine entries and the scratch Hessian is 9 x 9 and
/// kept symmetric; [`FixBaseConstraint::get_gradient`] and
/// [`FixBaseConstraint::get_hessian`] scatter them into the global buffers
/// along the variables' solver indices.
#[derive(Clone, Debug)]
pub struct FixBaseConstraint<S> {
    /// Value of the squared constraint error after the last evaluation.
    pub value: S,
    /// Local gradient of the squared error over the nine local degrees of
    /// freedom.
    pub grad: Vec<S>,
    /// Local Hessian of the squared error, 9 x 9 and symmetric.
    pub hess: Vec<Vec<S>>,
    /// Solver indices of the nine local variables at construction time,
    /// disabled ones included.
    pub index_list: Vec<usize>,
    /// The fixed offsets for the three position axes, in the reference
    /// object's local coordinate system.
    pub parameters: FixParameters<S>,
    /// Index of the fixed object in the vector of system objects.
    pub obj_index: usize,
    /// Index of the reference object in the vector of system objects.
    pub ref_index: usize,
    /// The algebra's additive identity, kept for seeding scratch values.
    pub zero: S,
    /// The algebra's multiplicative identity.
    pub one: S,
}

impl<S> FixBaseConstraint<S> {
    /// Shape of the scratch buffers: nine gradient entries, a 9 x 9 Hessian,
    /// and the Hessian symmetric.
    pub open spec fn wf(self) -> bool {
        &&& self.grad@.len() == 9
        &&& self.hess@.len() == 9
        &&& forall|i: int| 0 <= i < 9 ==> (#[trigger] self.hess@[i])@.len() == 9
        &&& forall|i: int, j: int|
            0 <= i < 9 && 0 <= j < 9 ==> self.hess@[i]@[j] == self.hess@[j]@[i]
    }

    /// The constraint's identification of its objects and parameters, which
    /// evaluation never changes.
    pub open spec fn same_shape(self, other: FixBaseConstraint<S>) -> bool {
        &&& self.index_list == other.index_list
        &&& self.parameters == other.parameters
        &&& self.obj_index == other.obj_index
        &&& self.ref_index == other.ref_index
        &&& self.zero == other.zero
        &&& self.one == other.one
    }
}

impl<S: DualAlgebra> FixBaseConstraint<S> {
    /// Sets up a fix-base constraint between the object and reference at the
    /// given indices.
    ///
    /// Enables the position variables that the parameters address on both the
    /// object and the reference, always enables the reference's three
    /// rotation angles, and marks the caches both objects now need.  The
    /// parameter value for an axis the parameters do not address stays at
    /// zero; it is never read, because such an axis contributes no residual.
    pub fn new(
        system_objects: &mut Vec<SystemObject<S>>,
        constraint_parameters: &AxisValues<S>,
        obj_index: usize,
        ref_index: usize,
    ) -> (c: FixBaseConstraint<S>)
        requires
            obj_index < old(system_objects)@.len(),
            ref_index < old(system_objects)@.len(),
            obj_index != ref_index,
        ensures
            c.wf(),
            c.obj_index == obj_index,
            c.ref_index == ref_index,
            final(system_objects)@.len() == old(system_objects)@.len(),
            forall|o: int|
                0 <= o < old(system_objects)@.len() && o != obj_index && o != ref_index
                    ==> final(system_objects)@[o] == old(system_objects)@[o],
            // The fixed object: parameter-addressed axes enabled, position
            // cache marked needed, everything else untouched.
            forall|a: VariableName|
                axis_present(*constraint_parameters, a) ==> axis_var(
                    final(system_objects)@[obj_index as int].vars,
                    a,
                ) == (Variable {
                    enabled: true,
                    ..axis_var(old(system_objects)@[obj_index as int].vars, a)
                }),
            forall|a: VariableName|
                !axis_present(*constraint_parameters, a) ==> axis_var(
                    final(system_objects)@[obj_index as int].vars,
                    a,
                ) == axis_var(old(system_objects)@[obj_index as int].vars, a),
            final(system_objects)@[obj_index as int].v_enable,
            final(system_objects)@[obj_index as int].q_enable == old(
                system_objects,
            )@[obj_index as int].q_enable,
            final(system_objects)@[obj_index as int].v_vals == old(
                system_objects,
            )@[obj_index as int].v_vals,
            final(system_objects)@[obj_index as int].q_vals == old(
                system_objects,
            )@[obj_index as int].q_vals,
            // The reference: parameter-addressed axes and all three rotation
            // angles enabled, both caches marked needed.
            forall|a: VariableName|
                axis_present(*constraint_parameters, a) || a == VariableName::phi
                    || a == VariableName::theta || a == VariableName::psi ==> axis_var(
                    final(system_objects)@[ref_index as int].vars,
                    a,
                ) == (Variable {
                    enabled: true,
                    ..axis_var(old(system_objects)@[ref_index as int].vars, a)
                }),
            forall|a: VariableName|
                !axis_present(*constraint_parameters, a) && a != VariableName::phi
                    && a != VariableName::theta && a != VariableName::psi ==> axis_var(
                    final(system_objects)@[ref_index as int].vars,
                    a,
                ) == axis_var(old(system_objects)@[ref_index as int].vars, a),
            final(system_objects)@[ref_index as int].v_enable,
            final(system_objects)@[ref_index as int].q_enable,
            final(system_objects)@[ref_index as int].v_vals == old(
                system_objects,
            )@[ref_index as int].v_vals,
            final(system_objects)@[ref_index as int].q_vals == old(
                system_objects,
            )@[ref_index as int].q_vals,
            // The scratch buffers start zeroed and the parameters take the
            // addressed values.
            c.value == c.zero,
            forall|i: int| 0 <= i < 9 ==> c.grad@[i] == c.zero,
            forall|i: int, j: int| 0 <= i < 9 && 0 <= j < 9 ==> c.hess@[i]@[j] == c.zero,
            c.parameters.x == (match axis_entry(*constraint_parameters, VariableName::x) {
                Some(v) => v,
                None => c.zero,
            }),
            c.parameters.y == (match axis_entry(*constraint_parameters, VariableName::y) {
                Some(v) => v,
                None => c.zero,
            }),
            c.parameters.z == (match axis_entry(*constraint_parameters, VariableName::z) {
                Some(v) => v,
                None => c.zero,
            }),
            // The recorded solver indices of the nine locals, as they stood
            // at construction.
            c.index_list@.len() == 9,
            forall|i: int|
                0 <= i < 9 ==> c.index_list@[i] == local_var(
                    c,
                    final(system_objects)@,
                    i,
                ).index,
    {
        let zero = S::zero();
        let one = S::one();

        // Enable the position variables on both objects and the rotation
        // angles of the reference; mark the caches that must now be kept
        // fresh on every iteration.
        {
            let mut sys_object = system_objects[obj_index];
            sys_object.enable_variables_from_params(constraint_parameters);
            sys_object.v_enable = true;
            system_objects[obj_index] = sys_object;
        }
        {
            let mut sys_reference = system_objects[ref_index];
            let ghost s0 = sys_reference;
            sys_reference.enable_variables_from_params(constraint_parameters);
            proof {
                assert(s0 == old(system_objects)@[ref_index as int]);
                assert(axis_var(sys_reference.vars, VariableName::phi) == (
                if axis_present(*constraint_parameters, VariableName::phi) {
                    Variable { enabled: true, ..axis_var(s0.vars, VariableName::phi) }
                } else {
                    axis_var(s0.vars, VariableName::phi)
                }));
                assert(axis_var(sys_reference.vars, VariableName::theta) == (
                if axis_present(*constraint_parameters, VariableName::theta) {
                    Variable { enabled: true, ..axis_var(s0.vars, VariableName::theta) }
                } else {
                    axis_var(s0.vars, VariableName::theta)
                }));
                assert(axis_var(sys_reference.vars, VariableName::psi) == (
                if axis_present(*constraint_parameters, VariableName::psi) {
                    Variable { enabled: true, ..axis_var(s0.vars, VariableName::psi) }
                } else {
                    axis_var(s0.vars, VariableName::psi)
                }));
            }
            // The rotation angles of the reference are always enabled: the
            // residual is taken in the reference's local frame.
            sys_reference.vars.phi.enabled = true;
            sys_reference.vars.theta.enabled = true;
            sys_reference.vars.psi.enabled = true;
            sys_reference.v_enable = true;
            sys_reference.q_enable = true;
            system_objects[ref_index] = sys_reference;
        }
        proof {
            let post = system_objects@[ref_index as int].vars;
            let pre = old(system_objects)@[ref_index as int].vars;
            assert(axis_present(*constraint_parameters, VariableName::x) ==> axis_var(
                post,
                VariableName::x,
            ) == (Variable { enabled: true, ..axis_var(pre, VariableName::x) }));
            assert(axis_present(*constraint_parameters, VariableName::y) ==> axis_var(
                post,
                VariableName::y,
            ) == (Variable { enabled: true, ..axis_var(pre, VariableName::y) }));
            assert(axis_present(*constraint_parameters, VariableName::z) ==> axis_var(
                post,
                VariableName::z,
            ) == (Variable { enabled: true, ..axis_var(pre, VariableName::z) }));
            assert(axis_var(post, VariableName::phi) == (Variable {
                enabled: true,
                ..axis_var(pre, VariableName::phi)
            }));
            assert(axis_var(post, VariableName::theta) == (Variable {
                enabled: true,
                ..axis_var(pre, VariableName::theta)
            }));
            assert(axis_var(post, VariableName::psi) == (Variable {
                enabled: true,
                ..axis_var(pre, VariableName::psi)
            }));
        }

        // Record the solver indices of the nine local variables, the
        // disabled ones included: their values still enter the residual.
        let mut index_list: Vec<usize> = Vec::new();
        add_position_variables(&system_objects[obj_index], &mut index_list);
        add_position_variables(&system_objects[ref_index], &mut index_list);
        add_rotation_variables(&system_objects[ref_index], &mut index_list);

        // Take over the offsets for the addressed position axes; the others
        // stay at zero and are never read.
        let mut parameters = FixParameters { x: zero, y: zero, z: zero };
        add_parameters(&mut parameters, constraint_parameters);

        let mut grad: Vec<S> = Vec::new();
        let mut i: usize = 0;
        while i < 9
            invariant
                i <= 9,
                grad@.len() == i,
                forall|j: int| 0 <= j < i ==> grad@[j] == zero,
            decreases 9 - i,
        {
            grad.push(zero);
            i = i + 1;
        }
        let mut hess: Vec<Vec<S>> = Vec::new();
        let mut r: usize = 0;
        while r < 9
            invariant
                r <= 9,
                hess@.len() == r,
                forall|a: int| 0 <= a < r ==> (#[trigger] hess@[a])@.len() == 9,
                forall|a: int, b: int| 0 <= a < r && 0 <= b < 9 ==> hess@[a]@[b] == zero,
            decreases 9 - r,
        {
            let mut row: Vec<S> = Vec::new();
            let mut t: usize = 0;
            while t < 9
                invariant
                    t <= 9,
                    row@.len() == t,
                    forall|j: int| 0 <= j < t ==> row@[j] == zero,
                decreases 9 - t,
            {
                row.push(zero);
                t = t + 1;
            }
            hess.push(row);
            r = r + 1;
        }

        FixBaseConstraint {
            value: zero,
            grad,
            hess,
            index_list,
            parameters,
            obj_index,
            ref_index,
            zero,
            one,
        }
    }

    /// The constraint function error for one seeded evaluation: the residual
    /// of the object's position against the target offsets in the reference
    /// frame, squared and summed over the constrained axes.
    fn eval(
        &self,
        object: &SystemObject<S>,
        p: DualVector<S>,
        rp: DualVector<S>,
        rq: DualQuaternion<S>,
    ) -> HyperDual<S> {
        let obj_px_enabled = object.vars.x.enabled;
        let obj_py_enabled = object.vars.y.enabled;
        let obj_pz_enabled = object.vars.z.enabled;

        let f_base = self.get_f_base(obj_px_enabled, obj_py_enabled, obj_pz_enabled, &p);

        let v = p.sub(&rp);

        let base_eval = S::quat_rotate(S::quat_inv(rq), v).sub(&f_base);

        let mut result = HyperDual { re: self.zero, e1: self.zero, e2: self.zero, e1e2: self.zero };
        if obj_px_enabled {
            result = S::dual_add(result, S::dual_sqr(base_eval.x));
        }
        if obj_py_enabled {
            result = S::dual_add(result, S::dual_sqr(base_eval.y));
        }
        if obj_pz_enabled {
            result = S::dual_add(result, S::dual_sqr(base_eval.z));
        }
        result
    }

    /// The target vector of the residual: the fixed offset on every axis the
    /// object is constraining, and the object's own coordinate on every other
    /// axis, so that an unconstrained axis contributes zero residual by
    /// construction.
    fn get_f_base(
        &self,
        obj_px_enabled: bool,
        obj_py_enabled: bool,
        obj_pz_enabled: bool,
        p: &DualVector<S>,
    ) -> (f_base: DualVector<S>)
        ensures
            f_base.x == (if obj_px_enabled {
                HyperDual { re: self.parameters.x, e1: self.zero, e2: self.zero, e1e2: self.zero }
            } else {
                p.x
            }),
            f_base.y == (if obj_py_enabled {
                HyperDual { re: self.parameters.y, e1: self.zero, e2: self.zero, e1e2: self.zero }
            } else {
                p.y
            }),
            f_base.z == (if obj_pz_enabled {
                HyperDual { re: self.parameters.z, e1: self.zero, e2: self.zero, e1e2: self.zero }
            } else {
                p.z
            }),
    {
        let zero = self.zero;
        let fx = if obj_px_enabled {
            HyperDual { re: self.parameters.x, e1: zero, e2: zero, e1e2: zero }
        } else {
            p.x
        };
        let fy = if obj_py_enabled {
            HyperDual { re: self.parameters.y, e1: zero, e2: zero, e1e2: zero }
        } else {
            p.y
        };
        let fz = if obj_pz_enabled {
            HyperDual { re: self.parameters.z, e1: zero, e2: zero, e1e2: zero }
        } else {
            p.z
        };
        DualVector { x: fx, y: fy, z: fz }
    }

    /// Evaluates the squared error with all of its first and mixed second
    /// partial derivatives over the nine local degrees of freedom.
    ///
    /// Every unordered local pair `(i, j)` is evaluated once with `e1` seeded
    /// on `i` and `e2` on `j`; the mixed channel of the result lands
    /// symmetrically in the scratch Hessian, the first-order channel gives
    /// the gradient entry for `i`, and the real part (identical across all 45
    /// evaluations) becomes the stored error value.
    pub fn evaluate(&mut self, sys_objects: &Vec<SystemObject<S>>)
        requires
            old(self).wf(),
            old(self).obj_index < sys_objects@.len(),
            old(self).ref_index < sys_objects@.len(),
        ensures
            final(self).wf(),
            final(self).same_shape(*old(self)),
    {
        let object = &sys_objects[self.obj_index];
        let reference = &sys_objects[self.ref_index];

        let mut fn_eval: HyperDual<S> = HyperDual {
            re: self.zero,
            e1: self.zero,
            e2: self.zero,
            e1e2: self.zero,
        };

        let mut p: DualVector<S>;
        let mut rp: DualVector<S>;
        let mut rq: DualQuaternion<S>;

        // Partial derivatives with respect to object variables only: the
        // reference's vector and quaternion stay constant on both channels.
        rp = reference.get_vector(None, None);
        rq = reference.get_quaternion(None, None);
        let mut i: usize = 0;
        while i < 3
            invariant
                i <= 3,
                self.wf(),
                self.same_shape(*old(self)),
                self.obj_index < sys_objects@.len(),
                self.ref_index < sys_objects@.len(),
            decreases 3 - i,
        {
            let mut j: usize = i;
            while j < 3
                invariant
                    i < 3,
                    i <= j <= 3,
                    self.wf(),
                    self.same_shape(*old(self)),
                    self.obj_index < sys_objects@.len(),
                    self.ref_index < sys_objects@.len(),
                decreases 3 - j,
            {
                p = object.get_vector(Some(variable_at(i)), Some(variable_at(j)));
                fn_eval = self.eval(object, p, rp, rq);
                let mixed = fn_eval.e1e2;
                self.hess[i][j] = mixed;
                self.hess[j][i] = mixed;
                j = j + 1;
            }
            // The first-order channel is invariant across the inner loop, so
            // the last evaluation provides the gradient entry.
            self.grad[i] = fn_eval.e1;
            i = i + 1;
        }

        // Partial derivatives with respect to one object variable and one
        // reference variable.
        i = 0;
        while i < 3
            invariant
                i <= 3,
                self.wf(),
                self.same_shape(*old(self)),
                self.obj_index < sys_objects@.len(),
                self.ref_index < sys_objects@.len(),
            decreases 3 - i,
        {
            p = object.get_vector(Some(variable_at(i)), None);
            let mut j: usize = 0;
            while j < 6
                invariant
                    i < 3,
                    j <= 6,
                    self.wf(),
                    self.same_shape(*old(self)),
                    self.obj_index < sys_objects@.len(),
                    self.ref_index < sys_objects@.len(),
                decreases 6 - j,
            {
                rp = reference.get_vector(None, Some(variable_at(j)));
                rq = reference.get_quaternion(None, Some(variable_at(j)));
                fn_eval = self.eval(object, p, rp, rq);
                let mixed = fn_eval.e1e2;
                self.hess[i][j + 3] = mixed;
                self.hess[j + 3][i] = mixed;
                j = j + 1;
            }
            i = i + 1;
        }

        // Partial derivatives with respect to reference variables only: the
        // object's position vector stays constant on both channels.
        p = object.get_vector(None, None);
        i = 0;
        while i < 6
            invariant
                i <= 6,
                self.wf(),
                self.same_shape(*old(self)),
                self.obj_index < sys_objects@.len(),
                self.ref_index < sys_objects@.len(),
            decreases 6 - i,
        {
            let mut j: usize = i;
            while j < 6
                invariant
                    i < 6,
                    i <= j <= 6,
                    self.wf(),
                    self.same_shape(*old(self)),
                    self.obj_index < sys_objects@.len(),
                    self.ref_index < sys_objects@.len(),
                decreases 6 - j,
            {
                rp = reference.get_vector(Some(variable_at(i)), Some(variable_at(j)));
                rq = reference.get_quaternion(Some(variable_at(i)), Some(variable_at(j)));
                fn_eval = self.eval(object, p, rp, rq);
                let mixed = fn_eval.e1e2;
                self.hess[i + 3][j + 3] = mixed;
                self.hess[j + 3][i + 3] = mixed;
                j = j + 1;
            }
            self.grad[i + 3] = fn_eval.e1;
            i = i + 1;
        }

        // Every evaluation carries the same real part; store it once.
        self.value = fn_eval.re;
    }

    /// The cached scalar error of the last evaluation.
    pub fn get_value(&self) -> (r: S)
        ensures
            r == self.value,
    {
        self.value
    }

    /// A constant directional-derivative contribution for line-search style
    /// callers; the fix-base constraint has no path-dependent direction.
    pub fn get_diff(&mut self) -> (r: S)
        ensures
            *final(self) == *old(self),
            r == old(self).one,
    {
        self.one
    }

    /// Accumulates the local gradient into the global gradient buffer.
    ///
    /// Each local axis that is enabled and not locked adds its entry at the
    /// axis's solver index; disabled and locked axes are skipped and no other
    /// cell of the buffer changes.  Contributions add onto what is already
    /// there: several constraints may target the same cell, in particular
    /// through aliased variables.
    pub fn get_gradient(&self, system_grad: &mut Vec<S>, sys_objects: &Vec<SystemObject<S>>)
        requires
            self.wf(),
            self.obj_index < sys_objects@.len(),
            self.ref_index < sys_objects@.len(),
            forall|i: int|
                0 <= i < 9 && is_free(#[trigger] local_var(*self, sys_objects@, i)) ==> local_var(
                    *self,
                    sys_objects@,
                    i,
                ).index < old(system_grad)@.len(),
        ensures
            final(system_grad)@.len() == old(system_grad)@.len(),
            forall|k: int|
                0 <= k < old(system_grad)@.len() && !scatter_targets(*self, sys_objects@).contains(
                    k,
                ) ==> final(system_grad)@[k] == old(system_grad)@[k],
    {
        let object = &sys_objects[self.obj_index];
        let reference = &sys_objects[self.ref_index];

        let mut i: usize = 0;
        while i < 3
            invariant
                i <= 3,
                self.wf(),
                self.obj_index < sys_objects@.len(),
                self.ref_index < sys_objects@.len(),
                *object == sys_objects@[self.obj_index as int],
                forall|l: int|
                    0 <= l < 9 && is_free(#[trigger] local_var(*self, sys_objects@, l))
                        ==> local_var(*self, sys_objects@, l).index < system_grad@.len(),
                system_grad@.len() == old(system_grad)@.len(),
                forall|k: int|
                    0 <= k < system_grad@.len() && !scatter_targets(*self, sys_objects@).contains(
                        k,
                    ) ==> system_grad@[k] == old(system_grad)@[k],
            decreases 3 - i,
        {
            let var = *object.vars.get_variable(variable_at(i));
            if var.enabled && !var.locked {
                proof {
                    assert(local_var(*self, sys_objects@, i as int) == var);
                    assert(scatter_targets(*self, sys_objects@).contains(var.index as int));
                }
                let k = var.index;
                let v = S::sum(system_grad[k], self.grad[i]);
                system_grad[k] = v;
            }
            i = i + 1;
        }

        i = 0;
        while i < 6
            invariant
                i <= 6,
                self.wf(),
                self.obj_index < sys_objects@.len(),
                self.ref_index < sys_objects@.len(),
                *reference == sys_objects@[self.ref_index as int],
                forall|l: int|
                    0 <= l < 9 && is_free(#[trigger] local_var(*self, sys_objects@, l))
                        ==> local_var(*self, sys_objects@, l).index < system_grad@.len(),
                system_grad@.len() == old(system_grad)@.len(),
                forall|k: int|
                    0 <= k < system_grad@.len() && !scatter_targets(*self, sys_objects@).contains(
                        k,
                    ) ==> system_grad@[k] == old(system_grad)@[k],
            decreases 6 - i,
        {
            let var = *reference.vars.get_variable(variable_at(i));
            if var.enabled && !var.locked {
                proof {
                    assert(local_var(*self, sys_objects@, i + 3) == var);
                    assert(scatter_targets(*self, sys_objects@).contains(var.index as int));
                }
                let k = var.index;
                let v = S::sum(system_grad[k], self.grad[i + 3]);
                system_grad[k] = v;
            }
            i = i + 1;
        }
    }

    /// Accumulates the local Hessian into the global Hessian buffer.
    ///
    /// Each pair of local axes that are both enabled and unlocked adds its
    /// entry (and the symmetric one) at the pair of solver indices; any cell
    /// outside the constraint's own index set stays untouched.
    pub fn get_hessian(&self, system_hess: &mut Vec<Vec<S>>, sys_objects: &Vec<SystemObject<S>>)
        requires
            self.wf(),
            self.obj_index < sys_objects@.len(),
            self.ref_index < sys_objects@.len(),
            forall|r: int|
                0 <= r < old(system_hess)@.len() ==> (#[trigger] old(system_hess)@[r])@.len()
                    == old(system_hess)@.len(),
            forall|i: int|
                0 <= i < 9 && is_free(#[trigger] local_var(*self, sys_objects@, i)) ==> local_var(
                    *self,
                    sys_objects@,
                    i,
                ).index < old(system_hess)@.len(),
        ensures
            final(system_hess)@.len() == old(system_hess)@.len(),
            forall|r: int|
                0 <= r < final(system_hess)@.len() ==> (#[trigger] final(system_hess)@[r])@.len()
                    == final(system_hess)@.len(),
            forall|k: int, l: int|
                0 <= k < old(system_hess)@.len() && 0 <= l < old(system_hess)@.len() && !(
                scatter_targets(*self, sys_objects@).contains(k) && scatter_targets(
                    *self,
                    sys_objects@,
                ).contains(l)) ==> final(system_hess)@[k]@[l] == old(system_hess)@[k]@[l],
    {
        let object = &sys_objects[self.obj_index];
        let reference = &sys_objects[self.ref_index];

        // Derivatives with respect to pairs of object variables.
        let mut i: usize = 0;
        while i < 3
            invariant
                i <= 3,
                self.wf(),
                self.obj_index < sys_objects@.len(),
                self.ref_index < sys_objects@.len(),
                *object == sys_objects@[self.obj_index as int],
                *reference == sys_objects@[self.ref_index as int],
                forall|l: int|
                    0 <= l < 9 && is_free(#[trigger] local_var(*self, sys_objects@, l))
                        ==> local_var(*self, sys_objects@, l).index < system_hess@.len(),
                system_hess@.len() == old(system_hess)@.len(),
                forall|r: int|
                    0 <= r < system_hess@.len() ==> (#[trigger] system_hess@[r])@.len()
                        == system_hess@.len(),
                forall|k: int, l: int|
                    0 <= k < system_hess@.len() && 0 <= l < system_hess@.len() && !(
                    scatter_targets(*self, sys_objects@).contains(k) && scatter_targets(
                        *self,
                        sys_objects@,
                    ).contains(l)) ==> system_hess@[k]@[l] == old(system_hess)@[k]@[l],
            decreases 3 - i,
        {
            let variable1 = *object.vars.get_variable(variable_at(i));
            let mut j: usize = 0;
            while j < 3
                invariant
                    i < 3,
                    j <= 3,
                    self.wf(),
                    self.obj_index < sys_objects@.len(),
                    self.ref_index < sys_objects@.len(),
                    *object == sys_objects@[self.obj_index as int],
                    variable1 == local_var(*self, sys_objects@, i as int),
                    forall|l: int|
                        0 <= l < 9 && is_free(#[trigger] local_var(*self, sys_objects@, l))
                            ==> local_var(*self, sys_objects@, l).index < system_hess@.len(),
                    system_hess@.len() == old(system_hess)@.len(),
                    forall|r: int|
                        0 <= r < system_hess@.len() ==> (#[trigger] system_hess@[r])@.len()
                            == system_hess@.len(),
                    forall|k: int, l: int|
                        0 <= k < system_hess@.len() && 0 <= l < system_hess@.len() && !(
                        scatter_targets(*self, sys_objects@).contains(k) && scatter_targets(
                            *self,
                            sys_objects@,
                        ).contains(l)) ==> system_hess@[k]@[l] == old(system_hess)@[k]@[l],
                decreases 3 - j,
            {
                let variable2 = *object.vars.get_variable(variable_at(j));
                if variable1.enabled && !variable1.locked && variable2.enabled
                    && !variable2.locked {
                    proof {
                        assert(local_var(*self, sys_objects@, j as int) == variable2);
                        assert(scatter_targets(*self, sys_objects@).contains(
                            variable1.index as int,
                        ));
                        assert(scatter_targets(*self, sys_objects@).contains(
                            variable2.index as int,
                        ));
                    }
                    let k = variable1.index;
                    let l = variable2.index;
                    let v = S::sum(system_hess[k][l], self.hess[i][j]);
                    system_hess[k][l] = v;
                }
                j = j + 1;
            }
            i = i + 1;
        }

        // Derivatives pairing one object variable with one reference
        // variable; both symmetric cells are filled.
        i = 0;
        while i < 3
            invariant
                i <= 3,
                self.wf(),
                self.obj_index < sys_objects@.len(),
                self.ref_index < sys_objects@.len(),
                *object == sys_objects@[self.obj_index as int],
                *reference == sys_objects@[self.ref_index as int],
                forall|l: int|
                    0 <= l < 9 && is_free(#[trigger] local_var(*self, sys_objects@, l))
                        ==> local_var(*self, sys_objects@, l).index < system_hess@.len(),
                system_hess@.len() == old(system_hess)@.len(),
                forall|r: int|
                    0 <= r < system_hess@.len() ==> (#[trigger] system_hess@[r])@.len()
                        == system_hess@.len(),
                forall|k: int, l: int|
                    0 <= k < system_hess@.len() && 0 <= l < system_hess@.len() && !(
                    scatter_targets(*self, sys_objects@).contains(k) && scatter_targets(
                        *self,
                        sys_objects@,
                    ).contains(l)) ==> system_hess@[k]@[l] == old(system_hess)@[k]@[l],
            decreases 3 - i,
        {
            let variable1 = *object.vars.get_variable(variable_at(i));
            let mut j: usize = 0;
            while j < 6
                invariant
                    i < 3,
                    j <= 6,
                    self.wf(),
                    self.obj_index < sys_objects@.len(),
                    self.ref_index < sys_objects@.len(),
                    *reference == sys_objects@[self.ref_index as int],
                    variable1 == local_var(*self, sys_objects@, i as int),
                    forall|l: int|
                        0 <= l < 9 && is_free(#[trigger] local_var(*self, sys_objects@, l))
                            ==> local_var(*self, sys_objects@, l).index < system_hess@.len(),
                    system_hess@.len() == old(system_hess)@.len(),
                    forall|r: int|
                        0 <= r < system_hess@.len() ==> (#[trigger] system_hess@[r])@.len()
                            == system_hess@.len(),
                    forall|k: int, l: int|
                        0 <= k < system_hess@.len() && 0 <= l < system_hess@.len() && !(
                        scatter_targets(*self, sys_objects@).contains(k) && scatter_targets(
                            *self,
                            sys_objects@,
                        ).contains(l)) ==> system_hess@[k]@[l] == old(system_hess)@[k]@[l],
                decreases 6 - j,
            {
                let variable2 = *reference.vars.get_variable(variable_at(j));
                if variable1.enabled && !variable1.locked && variable2.enabled
                    && !variable2.locked {
                    proof {
                        assert(local_var(*self, sys_objects@, j + 3) == variable2);
                        assert(scatter_targets(*self, sys_objects@).contains(
                            variable1.index as int,
                        ));
                        assert(scatter_targets(*self, sys_objects@).contains(
                            variable2.index as int,
                        ));
                    }
                    let k = variable1.index;
                    let l = variable2.index;
                    let v1 = S::sum(system_hess[k][l], self.hess[i][j + 3]);
                    system_hess[k][l] = v1;
                    let v2 = S::sum(system_hess[l][k], self.hess[j + 3][i]);
                    system_hess[l][k] = v2;
                }
                j = j + 1;
            }
            i = i + 1;
        }

        // Derivatives with respect to pairs of reference variables.
        i = 0;
        while i < 6
            invariant
                i <= 6,
                self.wf(),
                self.obj_index < sys_objects@.len(),
                self.ref_index < sys_objects@.len(),
                *reference == sys_objects@[self.ref_index as int],
                forall|l: int|
                    0 <= l < 9 && is_free(#[trigger] local_var(*self, sys_objects@, l))
                        ==> local_var(*self, sys_objects@, l).index < system_hess@.len(),
                system_hess@.len() == old(system_hess)@.len(),
                forall|r: int|
                    0 <= r < system_hess@.len() ==> (#[trigger] system_hess@[r])@.len()
                        == system_hess@.len(),
                forall|k: int, l: int|
                    0 <= k < system_hess@.len() && 0 <= l < system_hess@.len() && !(
                    scatter_targets(*self, sys_objects@).contains(k) && scatter_targets(
                        *self,
                        sys_objects@,
                    ).contains(l)) ==> system_hess@[k]@[l] == old(system_hess)@[k]@[l],
            decreases 6 - i,
        {
            let variable1 = *reference.vars.get_variable(variable_at(i));
            let mut j: usize = 0;
            while j < 6
                invariant
                    i < 6,
                    j <= 6,
                    self.wf(),
                    self.obj_index < sys_objects@.len(),
                    self.ref_index < sys_objects@.len(),
                    *reference == sys_objects@[self.ref_index as int],
                    variable1 == local_var(*self, sys_objects@, i + 3),
                    forall|l: int|
                        0 <= l < 9 && is_free(#[trigger] local_var(*self, sys_objects@, l))
                            ==> local_var(*self, sys_objects@, l).index < system_hess@.len(),
                    system_hess@.len() == old(system_hess)@.len(),
                    forall|r: int|
                        0 <= r < system_hess@.len() ==> (#[trigger] system_hess@[r])@.len()
                            == system_hess@.len(),
                    forall|k: int, l: int|
                        0 <= k < system_hess@.len() && 0 <= l < system_hess@.len() && !(
                        scatter_targets(*self, sys_objects@).contains(k) && scatter_targets(
                            *self,
                            sys_objects@,
                        ).contains(l)) ==> system_hess@[k]@[l] == old(system_hess)@[k]@[l],
                decreases 6 - j,
            {
                let variable2 = *reference.vars.get_variable(variable_at(j));
                if variable1.enabled && !variable1.locked && variable2.enabled
                    && !variable2.locked {
                    proof {
                        assert(local_var(*self, sys_objects@, j + 3) == variable2);
                        assert(scatter_targets(*self, sys_objects@).contains(
                            variable1.index as int,
                        ));
                        assert(scatter_targets(*self, sys_objects@).contains(
                            variable2.index as int,
                        ));
                    }
                    let k = variable1.index;
                    let l = variable2.index;
                    let v = S::sum(system_hess[k][l], self.hess[i + 3][j + 3]);
                    system_hess[k][l] = v;
                }
                j = j + 1;
            }
            i = i + 1;
        }
    }
}

/// Takes the offset values for the three position axes out of the constraint
/// parameters; an axis the parameters do not address keeps its zero.
fn add_parameters<S: Copy>(parameters: &mut FixParameters<S>, constraint_parameters: &AxisValues<S>)
    ensures
        final(parameters).x == (match axis_entry(*constraint_parameters, VariableName::x) {
            Some(v) => v,
            None => old(parameters).x,
        }),
        final(parameters).y == (match axis_entry(*constraint_parameters, VariableName::y) {
            Some(v) => v,
            None => old(parameters).y,
        }),
        final(parameters).z == (match axis_entry(*constraint_parameters, VariableName::z) {
            Some(v) => v,
            None => old(parameters).z,
        }),
{
    match constraint_parameters.x {
        Some(value) => parameters.x = value,
        None => (),
    }
    match constraint_parameters.y {
        Some(value) => parameters.y = value,
        None => (),
    }
    match constraint_parameters.z {
        Some(value) => parameters.z = value,
        None => (),
    }
}

/// Appends the solver indices of an object's position variables.
fn add_position_variables<S>(object: &SystemObject<S>, index_list: &mut Vec<usize>)
    ensures
        final(index_list)@.len() == old(index_list)@.len() + 3,
        final(index_list)@ == old(index_list)@ + seq![
            object.vars.x.index,
            object.vars.y.index,
            object.vars.z.index,
        ],
{
    index_list.push(object.vars.x.index);
    index_list.push(object.vars.y.index);
    index_list.push(object.vars.z.index);
    proof {
        assert(index_list@ =~= old(index_list)@ + seq![
            object.vars.x.index,
            object.vars.y.index,
            object.vars.z.index,
        ]);
    }
}

/// Appends the solver indices of an object's rotation variables.
fn add_rotation_variables<S>(object: &SystemObject<S>, index_list: &mut Vec<usize>)
    ensures
        final(index_list)@.len() == old(index_list)@.len() + 3,
        final(index_list)@ == old(index_list)@ + seq![
            object.vars.phi.index,
            object.vars.theta.index,
            object.vars.psi.index,
        ],
{
    index_list.push(object.vars.phi.index);
    index_list.push(object.vars.theta.index);
    index_list.push(object.vars.psi.index);
    proof {
        assert(index_list@ =~= old(index_list)@ + seq![
            object.vars.phi.index,
            object.vars.theta.index,
            object.vars.psi.index,
        ]);
    }
}

} // verus!
