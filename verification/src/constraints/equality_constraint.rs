//! Equality constraints: not residual functions but variable-state mutators.
//!
//! Making two variables equal aliases the second object's variable to the
//! first object's: the index-assignment pass later gives both the same
//! solver index, so every other constraint reads and writes the shared
//! global cell without any extra work - equal variables simply are one
//! solver variable.

use vstd::prelude::*;

use crate::number_system::DualAlgebra;
use crate::system::{axis_present, AxisValues, Variable};
use crate::system_object::{axis_var, SystemObject, VariableName};

verus! {

/// The alias target that aliasing to a variable really means: the variable
/// itself where it plays the original role, or - where it is already an
/// alias - its own target, flattening the chain by one level.  Deeper chains
/// are the caller's responsibility to avoid.
pub open spec fn var_alias_target<S>(
    v: Variable<S>,
    own_idx: usize,
    a: VariableName,
) -> (usize, VariableName) {
    match v.equal {
        Some(t) => t,
        None => (own_idx, a),
    }
}

/// The alias target for one axis of an object, by the same flattening rule.
pub open spec fn alias_target<S>(
    obj1: SystemObject<S>,
    obj1_idx: usize,
    a: VariableName,
) -> (usize, VariableName) {
    var_alias_target(axis_var(obj1.vars, a), obj1_idx, a)
}

/// Applies the equality for one axis: where the parameters address it, the
/// variable is enabled on both objects and the second object's variable is
/// aliased to the first object's (or to its flattened target).
fn alias_axis<S: DualAlgebra>(
    present: bool,
    o1v: &mut Variable<S>,
    o2v: &mut Variable<S>,
    obj1_idx: usize,
    a: VariableName,
)
    ensures
        present ==> *final(o1v) == (Variable { enabled: true, ..*old(o1v) }),
        present ==> *final(o2v) == (Variable {
            enabled: true,
            equal: Some(var_alias_target(*old(o1v), obj1_idx, a)),
            ..*old(o2v)
        }),
        !present ==> *final(o1v) == *old(o1v),
        !present ==> *final(o2v) == *old(o2v),
{
    if present {
        let target = match o1v.equal {
            Some(t) => t,
            None => (obj1_idx, a),
        };
        o1v.enabled = true;
        o2v.enabled = true;
        o2v.equal = Some(target);
    }
}

/// Applies an equality constraint between two objects, axis by axis.
///
/// For every axis the parameters address, the variable is enabled on both
/// objects and the second object's variable is aliased to the first
/// object's (or directly to its target, where the first is itself an
/// alias).  Both objects' derivative caches are marked needed; this is a
/// deliberate over-approximation - a cache is enabled even when only axes of
/// the other kind take part.
pub fn set_up_equalities<S: DualAlgebra>(
    c_params: &AxisValues<S>,
    sys_object1_idx: usize,
    sys_object2_idx: usize,
    sys_objects: &mut Vec<SystemObject<S>>,
)
    requires
        sys_object1_idx < old(sys_objects)@.len(),
        sys_object2_idx < old(sys_objects)@.len(),
        sys_object1_idx != sys_object2_idx,
    ensures
        final(sys_objects)@.len() == old(sys_objects)@.len(),
        forall|o: int|
            0 <= o < old(sys_objects)@.len() && o != sys_object1_idx && o != sys_object2_idx
                ==> final(sys_objects)@[o] == old(sys_objects)@[o],
        // The first object: addressed axes enabled, nothing else changed.
        forall|a: VariableName|
            axis_present(*c_params, a) ==> axis_var(
                final(sys_objects)@[sys_object1_idx as int].vars,
                a,
            ) == (Variable {
                enabled: true,
                ..axis_var(old(sys_objects)@[sys_object1_idx as int].vars, a)
            }),
        forall|a: VariableName|
            !axis_present(*c_params, a) ==> axis_var(
                final(sys_objects)@[sys_object1_idx as int].vars,
                a,
            ) == axis_var(old(sys_objects)@[sys_object1_idx as int].vars, a),
        final(sys_objects)@[sys_object1_idx as int].q_enable,
        final(sys_objects)@[sys_object1_idx as int].v_enable,
        final(sys_objects)@[sys_object1_idx as int].q_vals == old(
            sys_objects,
        )@[sys_object1_idx as int].q_vals,
        final(sys_objects)@[sys_object1_idx as int].v_vals == old(
            sys_objects,
        )@[sys_object1_idx as int].v_vals,
        // The second object: addressed axes enabled and aliased to the
        // first object's variable or its flattened target.
        forall|a: VariableName|
            axis_present(*c_params, a) ==> axis_var(
                final(sys_objects)@[sys_object2_idx as int].vars,
                a,
            ) == (Variable {
                enabled: true,
                equal: Some(
                    alias_target(
                        old(sys_objects)@[sys_object1_idx as int],
                        sys_object1_idx,
                        a,
                    ),
                ),
                ..axis_var(old(sys_objects)@[sys_object2_idx as int].vars, a)
            }),
        forall|a: VariableName|
            !axis_present(*c_params, a) ==> axis_var(
                final(sys_objects)@[sys_object2_idx as int].vars,
                a,
            ) == axis_var(old(sys_objects)@[sys_object2_idx as int].vars, a),
        final(sys_objects)@[sys_object2_idx as int].q_enable,
        final(sys_objects)@[sys_object2_idx as int].v_enable,
        final(sys_objects)@[sys_object2_idx as int].q_vals == old(
            sys_objects,
        )@[sys_object2_idx as int].q_vals,
        final(sys_objects)@[sys_object2_idx as int].v_vals == old(
            sys_objects,
        )@[sys_object2_idx as int].v_vals,
{
    let obj1 = sys_objects[sys_object1_idx];
    let mut o1_vars = obj1.vars;
    let mut o2_vars = sys_objects[sys_object2_idx].vars;

    alias_axis(
        c_params.x.is_some(),
        &mut o1_vars.x,
        &mut o2_vars.x,
        sys_object1_idx,
        VariableName::x,
    );
    alias_axis(
        c_params.y.is_some(),
        &mut o1_vars.y,
        &mut o2_vars.y,
        sys_object1_idx,
        VariableName::y,
    );
    alias_axis(
        c_params.z.is_some(),
        &mut o1_vars.z,
        &mut o2_vars.z,
        sys_object1_idx,
        VariableName::z,
    );
    alias_axis(
        c_params.phi.is_some(),
        &mut o1_vars.phi,
        &mut o2_vars.phi,
        sys_object1_idx,
        VariableName::phi,
    );
    alias_axis(
        c_params.theta.is_some(),
        &mut o1_vars.theta,
        &mut o2_vars.theta,
        sys_object1_idx,
        VariableName::theta,
    );
    alias_axis(
        c_params.psi.is_some(),
        &mut o1_vars.psi,
        &mut o2_vars.psi,
        sys_object1_idx,
        VariableName::psi,
    );

    let object1 = &mut sys_objects[sys_object1_idx];
    object1.vars = o1_vars;
    object1.q_enable = true;
    object1.v_enable = true;

    let object2 = &mut sys_objects[sys_object2_idx];
    object2.vars = o2_vars;
    object2.q_enable = true;
    object2.v_enable = true;
}

} // verus!
