//! Locking constraints: not residual functions but variable-state mutators.
//!
//! A lock pins the addressed variables of one object at given values for the
//! whole solve.  A locked variable is still enabled - the constraints that
//! read it must know its value - but the index-assignment pass keeps it out
//! of the solver vector, so the optimizer never moves it.

use vstd::prelude::*;

use crate::number_system::DualAlgebra;
use crate::system::{axis_entry, axis_present, AxisValues, Variable};
use crate::system_object::{axis_var, SystemObject, VariableName};

verus! {

/// Locks the addressed variables of the object at the given values.
///
/// Every axis the parameters address has its value and initial value set to
/// the parameter, and is marked locked and enabled; the other axes stay as
/// they were.  Both derivative caches of the object are marked needed: a
/// newly enabled variable makes its cache live, and a disabled cache would
/// never be refreshed again.
pub fn set_up_locks<S: DualAlgebra>(c_params: &AxisValues<S>, sys_object: &mut SystemObject<S>)
    ensures
        forall|a: VariableName|
            axis_present(*c_params, a) ==> axis_var(final(sys_object).vars, a) == (Variable {
                value: axis_entry(*c_params, a)->Some_0,
                initial_value: axis_entry(*c_params, a)->Some_0,
                locked: true,
                enabled: true,
                ..axis_var(old(sys_object).vars, a)
            }),
        forall|a: VariableName|
            !axis_present(*c_params, a) ==> axis_var(final(sys_object).vars, a) == axis_var(
                old(sys_object).vars,
                a,
            ),
        final(sys_object).q_enable,
        final(sys_object).v_enable,
        final(sys_object).q_vals == old(sys_object).q_vals,
        final(sys_object).v_vals == old(sys_object).v_vals,
{
    let mut vars = sys_object.vars;
    match c_params.x {
        Some(value) => {
            vars.x.value = value;
            vars.x.initial_value = value;
            vars.x.locked = true;
            vars.x.enabled = true;
        },
        None => (),
    }
    match c_params.y {
        Some(value) => {
            vars.y.value = value;
            vars.y.initial_value = value;
            vars.y.locked = true;
            vars.y.enabled = true;
        },
        None => (),
    }
    match c_params.z {
        Some(value) => {
            vars.z.value = value;
            vars.z.initial_value = value;
            vars.z.locked = true;
            vars.z.enabled = true;
        },
        None => (),
    }
    match c_params.phi {
        Some(value) => {
            vars.phi.value = value;
            vars.phi.initial_value = value;
            vars.phi.locked = true;
            vars.phi.enabled = true;
        },
        None => (),
    }
    match c_params.theta {
        Some(value) => {
            vars.theta.value = value;
            vars.theta.initial_value = value;
            vars.theta.locked = true;
            vars.theta.enabled = true;
        },
        None => (),
    }
    match c_params.psi {
        Some(value) => {
            vars.psi.value = value;
            vars.psi.initial_value = value;
            vars.psi.locked = true;
            vars.psi.enabled = true;
        },
        None => (),
    }
    sys_object.vars = vars;

    sys_object.q_enable = true;
    sys_object.v_enable = true;
}

} // verus!
