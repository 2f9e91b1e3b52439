//! The closed sum of constraint kinds, dispatching the solver-facing
//! capability set (evaluate, value, gradient, Hessian, directional
//! derivative) to the variant's implementation.
//!
//! Grouping the kinds in one enum lets the system keep all constraints in a
//! single vector; adding a kind means adding a variant and its arms here,
//! without touching the system itself.

use vstd::prelude::*;

use crate::constraints::fix_base_constraint::{
    local_var, scatter_targets, FixBaseConstraint,
};
use crate::number_system::DualAlgebra;
use crate::system::is_free;
use crate::system_object::SystemObject;

verus! {

/// One constraint of the system, of whichever kind.
#[derive(Clone, Debug)]
pub enum ConstraintType<S> {
    FixBaseConstraint(FixBaseConstraint<S>),
}

impl<S> ConstraintType<S> {
    /// Shape of the variant's scratch buffers.
    pub open spec fn wf(self) -> bool {
        match self {
            ConstraintType::FixBaseConstraint(fix) => fix.wf(),
        }
    }

    /// Whether the variant's object references lie inside the system's
    /// object vector.
    pub open spec fn objects_in_range(self, n_objects: int) -> bool {
        match self {
            ConstraintType::FixBaseConstraint(fix) => fix.obj_index < n_objects
                && fix.ref_index < n_objects,
        }
    }

    /// The solver indices this constraint's scatter may touch: those of its
    /// free local variables.
    pub open spec fn targets(self, objs: Seq<SystemObject<S>>) -> Set<int> {
        match self {
            ConstraintType::FixBaseConstraint(fix) => scatter_targets(fix, objs),
        }
    }

    /// Whether every free local variable of the constraint carries a solver
    /// index below `n`: the precondition for scattering into buffers of
    /// length `n`.
    pub open spec fn targets_below(self, objs: Seq<SystemObject<S>>, n: int) -> bool {
        match self {
            ConstraintType::FixBaseConstraint(fix) => forall|i: int|
                0 <= i < 9 && is_free(#[trigger] local_var(fix, objs, i)) ==> local_var(
                    fix,
                    objs,
                    i,
                ).index < n,
        }
    }

    /// The cached scalar error held by the variant.
    pub open spec fn value(self) -> S {
        match self {
            ConstraintType::FixBaseConstraint(fix) => fix.value,
        }
    }

    /// The variant's constant directional-derivative contribution.
    pub open spec fn diff_value(self) -> S {
        match self {
            ConstraintType::FixBaseConstraint(fix) => fix.one,
        }
    }

    /// The identification of objects and parameters, which evaluation never
    /// changes.
    pub open spec fn same_shape(self, other: ConstraintType<S>) -> bool {
        match (self, other) {
            (
                ConstraintType::FixBaseConstraint(fix),
                ConstraintType::FixBaseConstraint(other_fix),
            ) => fix.same_shape(other_fix),
        }
    }
}

impl<S: DualAlgebra> ConstraintType<S> {
    /// Evaluates the constraint's squared error and its derivatives into the
    /// variant's scratch buffers.
    pub fn evaluate(&mut self, sys_objects: &Vec<SystemObject<S>>)
        requires
            old(self).wf(),
            old(self).objects_in_range(sys_objects@.len() as int),
        ensures
            final(self).wf(),
            final(self).same_shape(*old(self)),
            final(self).objects_in_range(sys_objects@.len() as int),
    {
        match self {
            ConstraintType::FixBaseConstraint(fix) => fix.evaluate(sys_objects),
        }
    }

    /// The cached scalar error of the last evaluation.
    pub fn get_value(&self) -> (r: S)
        ensures
            r == self.value(),
    {
        match self {
            ConstraintType::FixBaseConstraint(fix) => fix.get_value(),
        }
    }

    /// Accumulates the constraint's gradient contribution into the global
    /// gradient buffer; no cell outside the constraint's own free-variable
    /// indices changes.
    pub fn get_gradient(&self, sys_grad: &mut Vec<S>, sys_objects: &Vec<SystemObject<S>>)
        requires
            self.wf(),
            self.objects_in_range(sys_objects@.len() as int),
            self.targets_below(sys_objects@, old(sys_grad)@.len() as int),
        ensures
            final(sys_grad)@.len() == old(sys_grad)@.len(),
            forall|k: int|
                0 <= k < old(sys_grad)@.len() && !self.targets(sys_objects@).contains(k)
                    ==> final(sys_grad)@[k] == old(sys_grad)@[k],
    {
        match self {
            ConstraintType::FixBaseConstraint(fix) => fix.get_gradient(sys_grad, sys_objects),
        }
    }

    /// The constraint's directional-derivative contribution.
    pub fn get_diff(&mut self) -> (r: S)
        ensures
            *final(self) == *old(self),
            r == old(self).diff_value(),
    {
        match self {
            ConstraintType::FixBaseConstraint(fix) => fix.get_diff(),
        }
    }

    /// Accumulates the constraint's Hessian contribution into the global
    /// Hessian buffer; no cell outside the constraint's own free-variable
    /// index pairs changes.
    pub fn get_hessian(&self, sys_hess: &mut Vec<Vec<S>>, sys_objects: &Vec<SystemObject<S>>)
        requires
            self.wf(),
            self.objects_in_range(sys_objects@.len() as int),
            self.targets_below(sys_objects@, old(sys_hess)@.len() as int),
            forall|r: int|
                0 <= r < old(sys_hess)@.len() ==> (#[trigger] old(sys_hess)@[r])@.len() == old(
                    sys_hess,
                )@.len(),
        ensures
            final(sys_hess)@.len() == old(sys_hess)@.len(),
            forall|r: int|
                0 <= r < final(sys_hess)@.len() ==> (#[trigger] final(sys_hess)@[r])@.len()
                    == final(sys_hess)@.len(),
            forall|k: int, l: int|
                0 <= k < old(sys_hess)@.len() && 0 <= l < old(sys_hess)@.len() && !(self.targets(
                    sys_objects@,
                ).contains(k) && self.targets(sys_objects@).contains(l))
                    ==> final(sys_hess)@[k]@[l] == old(sys_hess)@[k]@[l],
    {
        match self {
            ConstraintType::FixBaseConstraint(fix) => fix.get_hessian(sys_hess, sys_objects),
        }
    }
}

} // verus!
