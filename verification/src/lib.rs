//! Numerical core of a geometric constraint solver.
//!
//! A collection of rigid bodies, each placed by six scalar degrees of freedom
//! (three positions `x`, `y`, `z` and three orientation angles `phi`, `theta`,
//! `psi`), is tied together by constraints.  The library builds the reduced
//! nonlinear least-squares objective for those constraints and exposes its
//! value, gradient and Hessian so that an external trust-region optimizer can
//! drive the bodies into place.
//!
//! The second-order dual ("hyperdual") arithmetic and the quaternion algebra
//! that power the derivative extraction are a supplied numeric library: the
//! [`number_system::DualAlgebra`] trait describes the operations the core
//! needs, and the host application provides an implementation over its own
//! scalar type.  Everything else - the per-object variable model with its
//! enable/lock/alias states, the dense solver-index assignment, the per-object
//! derivative caches, and the scatter of per-constraint gradients and Hessians
//! into the global buffers - is implemented and verified here.

pub mod constraints;
pub mod geometry;
pub mod number_system;
pub mod system;
pub mod system_object;

use vstd::prelude::*;

use crate::constraints::constraint_type::ConstraintType;
use crate::constraints::equality_constraint::set_up_equalities;
use crate::constraints::fix_base_constraint::{FixBaseConstraint, FixParameters};
use crate::constraints::lock_constraint::set_up_locks;
use crate::number_system::DualAlgebra;
use crate::system::{
    axis_entry, axis_present, first_missing_axis, has_name, AxisValues, BuildError, System,
    Variable,
};
use crate::system_object::{axis_var, is_rotation_axis, str_eq, VariableName};

verus! {

/// One constraint as the host hands it over: a kind, the names of the
/// objects involved, and the parameter association whose present axes are
/// the constrained ones.
pub enum ConstraintRequest<S> {
    /// Fix the position of `object` relative to `reference`.
    FixBase { object: String, reference: String, parameters: AxisValues<S> },
    /// Pin the addressed variables of `object` at the given values.
    Lock { object: String, parameters: AxisValues<S> },
    /// Make the addressed variables of `object2` equal to those of
    /// `object1`.
    Equality { object1: String, object2: String, parameters: AxisValues<S> },
}

/// Whether a name appears in the host's object list.
pub open spec fn object_listed<S>(objects: Seq<(String, AxisValues<S>)>, name: Seq<char>) -> bool {
    exists|i: int| 0 <= i < objects.len() && (#[trigger] objects[i].0)@ == name
}

/// The placement values the host lists for a name: those of the first entry
/// carrying it.  For a name the host does not list, no axis is present.
pub open spec fn listed_params<S>(
    objects: Seq<(String, AxisValues<S>)>,
    name: Seq<char>,
) -> AxisValues<S>
    decreases objects.len(),
{
    if objects.len() == 0 {
        AxisValues { x: None, y: None, z: None, phi: None, theta: None, psi: None }
    } else if (objects[0].0)@ == name {
        objects[0].1
    } else {
        listed_params(objects.drop_first(), name)
    }
}

/// Skipping entries that do not carry the name leaves the listed placement
/// unchanged.
proof fn lemma_listed_params_skip<S>(objects: Seq<(String, AxisValues<S>)>, name: Seq<char>, i: int)
    requires
        0 <= i <= objects.len(),
        forall|j: int| 0 <= j < i ==> (#[trigger] objects[j].0)@ != name,
    ensures
        listed_params(objects, name) == listed_params(objects.skip(i), name),
    decreases i,
{
    if i > 0 {
        assert(objects.skip(i - 1).drop_first() =~= objects.skip(i));
        assert((objects.skip(i - 1)[0].0)@ != name);
        lemma_listed_params_skip(objects, name, i - 1);
    } else {
        assert(objects.skip(0) =~= objects);
    }
}

/// Whether a request names the given object in any of its roles.
pub open spec fn req_mentions<S>(req: ConstraintRequest<S>, name: Seq<char>) -> bool {
    match req {
        ConstraintRequest::FixBase { object, reference, parameters } => object@ == name
            || reference@ == name,
        ConstraintRequest::Lock { object, parameters } => object@ == name,
        ConstraintRequest::Equality { object1, object2, parameters } => object1@ == name
            || object2@ == name,
    }
}

/// Whether a request names one body for both of its roles.
pub open spec fn req_self_paired<S>(req: ConstraintRequest<S>, name: Seq<char>) -> bool {
    match req {
        ConstraintRequest::FixBase { object, reference, parameters } => object@ == name
            && reference@ == name,
        ConstraintRequest::Lock { object, parameters } => false,
        ConstraintRequest::Equality { object1, object2, parameters } => object1@ == name
            && object2@ == name,
    }
}

/// Whether a request names only listed objects, and - where it relates two
/// bodies - two different ones.
pub open spec fn request_well_formed<S>(
    objects: Seq<(String, AxisValues<S>)>,
    req: ConstraintRequest<S>,
) -> bool {
    match req {
        ConstraintRequest::FixBase { object, reference, parameters } => object_listed(
            objects,
            object@,
        ) && object_listed(objects, reference@) && object@ != reference@,
        ConstraintRequest::Lock { object, parameters } => object_listed(objects, object@),
        ConstraintRequest::Equality { object1, object2, parameters } => object_listed(
            objects,
            object1@,
        ) && object_listed(objects, object2@) && object1@ != object2@,
    }
}

/// How many fix-base requests a sequence holds.
pub open spec fn count_fixbase<S>(reqs: Seq<ConstraintRequest<S>>) -> int
    decreases reqs.len(),
{
    if reqs.len() == 0 {
        0
    } else {
        count_fixbase(reqs.drop_last()) + (if reqs.last() is FixBase {
            1int
        } else {
            0
        })
    }
}

/// The count over one more request.
proof fn lemma_count_fixbase_step<S>(reqs: Seq<ConstraintRequest<S>>, p: int)
    requires
        0 <= p < reqs.len(),
    ensures
        count_fixbase(reqs.subrange(0, p + 1)) == count_fixbase(reqs.subrange(0, p)) + (
        if reqs[p] is FixBase {
            1int
        } else {
            0
        }),
{
    assert(reqs.subrange(0, p + 1).drop_last() =~= reqs.subrange(0, p));
    assert(reqs.subrange(0, p + 1).last() == reqs[p]);
}

/// The count never shrinks along prefixes, and a fix-base request is
/// strictly counted.
proof fn lemma_count_fixbase_monotone<S>(reqs: Seq<ConstraintRequest<S>>, p: int, q: int)
    requires
        0 <= p <= q <= reqs.len(),
    ensures
        count_fixbase(reqs.subrange(0, p)) <= count_fixbase(reqs.subrange(0, q)),
    decreases q - p,
{
    if p < q {
        lemma_count_fixbase_step(reqs, q - 1);
        lemma_count_fixbase_monotone(reqs, p, q - 1);
    }
}

/// What a registered fix-base constraint of the system looks like for its
/// request: a well-shaped constraint between the two named bodies, carrying
/// the requested offsets (the algebra's zero where an axis is unaddressed)
/// and freshly zeroed scratch buffers.
#[verifier::opaque]
pub open spec fn fixbase_matches<S>(
    s: System<S>,
    c: ConstraintType<S>,
    object: Seq<char>,
    reference: Seq<char>,
    params: AxisValues<S>,
) -> bool {
    match c {
        ConstraintType::FixBaseConstraint(fix) => {
            &&& fix.wf()
            &&& fix.obj_index < s.sys_names@.len()
            &&& fix.ref_index < s.sys_names@.len()
            &&& fix.obj_index != fix.ref_index
            &&& (s.sys_names@[fix.obj_index as int])@ == object
            &&& (s.sys_names@[fix.ref_index as int])@ == reference
            &&& fix.parameters == (FixParameters {
                x: match axis_entry(params, VariableName::x) {
                    Some(v) => v,
                    None => fix.zero,
                },
                y: match axis_entry(params, VariableName::y) {
                    Some(v) => v,
                    None => fix.zero,
                },
                z: match axis_entry(params, VariableName::z) {
                    Some(v) => v,
                    None => fix.zero,
                },
            })
            &&& fix.value == fix.zero
            &&& forall|i: int| 0 <= i < 9 ==> fix.grad@[i] == fix.zero
            &&& forall|i: int, j: int| 0 <= i < 9 && 0 <= j < 9 ==> fix.hess@[i]@[j] == fix.zero
        },
    }
}

/// The state a request leaves behind on the objects it names, phrased over
/// facts no later build step ever undoes: registration, enabled and locked
/// bits, alias marks and the cache switches.
#[verifier::opaque]
pub open spec fn req_state_applied<S>(s: System<S>, req: ConstraintRequest<S>) -> bool {
    match req {
        ConstraintRequest::FixBase { object, reference, parameters } => {
            &&& exists|i: int|
                0 <= i < s.sys_names@.len() && (#[trigger] s.sys_names@[i])@ == object@
                    && s.sys_objects@[i].v_enable && (forall|a: VariableName|
                    axis_present(parameters, a) ==> axis_var(s.sys_objects@[i].vars, a).enabled)
            &&& exists|i: int|
                0 <= i < s.sys_names@.len() && (#[trigger] s.sys_names@[i])@ == reference@
                    && s.sys_objects@[i].v_enable && s.sys_objects@[i].q_enable && (forall|
                    a: VariableName,
                |
                    axis_present(parameters, a) || is_rotation_axis(a) ==> axis_var(
                        s.sys_objects@[i].vars,
                        a,
                    ).enabled)
        },
        ConstraintRequest::Lock { object, parameters } => exists|i: int|
            0 <= i < s.sys_names@.len() && (#[trigger] s.sys_names@[i])@ == object@
                && s.sys_objects@[i].v_enable && s.sys_objects@[i].q_enable && (forall|
                a: VariableName,
            |
                axis_present(parameters, a) ==> axis_var(s.sys_objects@[i].vars, a).locked
                    && axis_var(s.sys_objects@[i].vars, a).enabled),
        ConstraintRequest::Equality { object1, object2, parameters } => {
            &&& exists|i: int|
                0 <= i < s.sys_names@.len() && (#[trigger] s.sys_names@[i])@ == object1@
                    && s.sys_objects@[i].v_enable && s.sys_objects@[i].q_enable && (forall|
                    a: VariableName,
                |
                    axis_present(parameters, a) ==> axis_var(s.sys_objects@[i].vars, a).enabled)
            &&& exists|i: int|
                0 <= i < s.sys_names@.len() && (#[trigger] s.sys_names@[i])@ == object2@
                    && s.sys_objects@[i].v_enable && s.sys_objects@[i].q_enable && (forall|
                    a: VariableName,
                |
                    axis_present(parameters, a) ==> axis_var(s.sys_objects@[i].vars, a).enabled
                        && axis_var(s.sys_objects@[i].vars, a).equal.is_some())
        },
    }
}

/// Whether some lock request of the list addresses the given axis of the
/// named object.
pub open spec fn lock_addresses<S>(
    reqs: Seq<ConstraintRequest<S>>,
    name: Seq<char>,
    a: VariableName,
) -> bool {
    exists|p: int|
        0 <= p < reqs.len() && ((#[trigger] reqs[p]) matches ConstraintRequest::Lock {
            object,
            parameters,
        } && object@ == name && axis_present(parameters, a))
}

/// One build step only ever adds: names keep their places, and an existing
/// variable may gain - but never lose - its enabled, locked and alias marks,
/// as may the objects' cache switches.
#[verifier::opaque]
pub open spec fn state_extends<S>(post: System<S>, pre: System<S>) -> bool {
    &&& post.sys_names@.len() >= pre.sys_names@.len()
    &&& post.sys_names@.len() == post.sys_objects@.len()
    &&& pre.sys_names@.len() == pre.sys_objects@.len()
    &&& forall|n: int|
        0 <= n < pre.sys_names@.len() ==> post.sys_names@[n] == pre.sys_names@[n]
    &&& forall|n: int, a: VariableName|
        0 <= n < pre.sys_objects@.len() && (#[trigger] axis_var(
            pre.sys_objects@[n].vars,
            a,
        )).enabled ==> axis_var(post.sys_objects@[n].vars, a).enabled
    &&& forall|n: int, a: VariableName|
        0 <= n < pre.sys_objects@.len() && (#[trigger] axis_var(
            pre.sys_objects@[n].vars,
            a,
        )).locked ==> axis_var(post.sys_objects@[n].vars, a).locked
    &&& forall|n: int, a: VariableName|
        0 <= n < pre.sys_objects@.len() && (#[trigger] axis_var(
            pre.sys_objects@[n].vars,
            a,
        )).equal.is_some() ==> axis_var(post.sys_objects@[n].vars, a).equal.is_some()
    &&& forall|n: int|
        0 <= n < pre.sys_objects@.len() && (#[trigger] pre.sys_objects@[n]).v_enable
            ==> post.sys_objects@[n].v_enable
    &&& forall|n: int|
        0 <= n < pre.sys_objects@.len() && (#[trigger] pre.sys_objects@[n]).q_enable
            ==> post.sys_objects@[n].q_enable
}

/// The per-request state facts survive any extending build step.
proof fn lemma_state_applied_extends<S>(
    post: System<S>,
    pre: System<S>,
    req: ConstraintRequest<S>,
)
    requires
        state_extends(post, pre),
        req_state_applied(pre, req),
    ensures
        req_state_applied(post, req),
{
    reveal(req_state_applied);
    reveal(state_extends);
    match req {
        ConstraintRequest::FixBase { object, reference, parameters } => {
            let n1 = choose|n: int|
                0 <= n < pre.sys_names@.len() && (#[trigger] pre.sys_names@[n])@ == object@
                    && pre.sys_objects@[n].v_enable && (forall|a: VariableName|
                    axis_present(parameters, a) ==> axis_var(
                        pre.sys_objects@[n].vars,
                        a,
                    ).enabled);
            assert((post.sys_names@[n1])@ == object@);
            assert forall|a: VariableName| axis_present(parameters, a) implies axis_var(
                post.sys_objects@[n1].vars,
                a,
            ).enabled by {
                assert(axis_var(pre.sys_objects@[n1].vars, a).enabled);
            }
            let n2 = choose|n: int|
                0 <= n < pre.sys_names@.len() && (#[trigger] pre.sys_names@[n])@ == reference@
                    && pre.sys_objects@[n].v_enable && pre.sys_objects@[n].q_enable && (forall|
                    a: VariableName,
                |
                    axis_present(parameters, a) || is_rotation_axis(a) ==> axis_var(
                        pre.sys_objects@[n].vars,
                        a,
                    ).enabled);
            assert((post.sys_names@[n2])@ == reference@);
            assert forall|a: VariableName|
                axis_present(parameters, a) || is_rotation_axis(a) implies axis_var(
                post.sys_objects@[n2].vars,
                a,
            ).enabled by {
                assert(axis_var(pre.sys_objects@[n2].vars, a).enabled);
            }
        },
        ConstraintRequest::Lock { object, parameters } => {
            let n1 = choose|n: int|
                0 <= n < pre.sys_names@.len() && (#[trigger] pre.sys_names@[n])@ == object@
                    && pre.sys_objects@[n].v_enable && pre.sys_objects@[n].q_enable && (forall|
                    a: VariableName,
                |
                    axis_present(parameters, a) ==> axis_var(pre.sys_objects@[n].vars, a).locked
                        && axis_var(pre.sys_objects@[n].vars, a).enabled);
            assert((post.sys_names@[n1])@ == object@);
            assert forall|a: VariableName| axis_present(parameters, a) implies axis_var(
                post.sys_objects@[n1].vars,
                a,
            ).locked && axis_var(post.sys_objects@[n1].vars, a).enabled by {
                assert(axis_var(pre.sys_objects@[n1].vars, a).locked && axis_var(
                    pre.sys_objects@[n1].vars,
                    a,
                ).enabled);
            }
        },
        ConstraintRequest::Equality { object1, object2, parameters } => {
            let n1 = choose|n: int|
                0 <= n < pre.sys_names@.len() && (#[trigger] pre.sys_names@[n])@ == object1@
                    && pre.sys_objects@[n].v_enable && pre.sys_objects@[n].q_enable && (forall|
                    a: VariableName,
                |
                    axis_present(parameters, a) ==> axis_var(
                        pre.sys_objects@[n].vars,
                        a,
                    ).enabled);
            assert((post.sys_names@[n1])@ == object1@);
            assert forall|a: VariableName| axis_present(parameters, a) implies axis_var(
                post.sys_objects@[n1].vars,
                a,
            ).enabled by {
                assert(axis_var(pre.sys_objects@[n1].vars, a).enabled);
            }
            let n2 = choose|n: int|
                0 <= n < pre.sys_names@.len() && (#[trigger] pre.sys_names@[n])@ == object2@
                    && pre.sys_objects@[n].v_enable && pre.sys_objects@[n].q_enable && (forall|
                    a: VariableName,
                |
                    axis_present(parameters, a) ==> axis_var(pre.sys_objects@[n].vars, a).enabled
                        && axis_var(pre.sys_objects@[n].vars, a).equal.is_some());
            assert((post.sys_names@[n2])@ == object2@);
            assert forall|a: VariableName| axis_present(parameters, a) implies axis_var(
                post.sys_objects@[n2].vars,
                a,
            ).enabled && axis_var(post.sys_objects@[n2].vars, a).equal.is_some() by {
                assert(axis_var(pre.sys_objects@[n2].vars, a).enabled && axis_var(
                    pre.sys_objects@[n2].vars,
                    a,
                ).equal.is_some());
            }
        },
    }
}

/// The state facts of a whole request prefix survive an extending step.
proof fn lemma_applied_prefix<S>(
    post: System<S>,
    pre: System<S>,
    reqs: Seq<ConstraintRequest<S>>,
    i: int,
)
    requires
        0 <= i <= reqs.len(),
        state_extends(post, pre),
        forall|p: int| 0 <= p < i ==> req_state_applied(pre, #[trigger] reqs[p]),
    ensures
        forall|p: int| 0 <= p < i ==> req_state_applied(post, #[trigger] reqs[p]),
{
    assert forall|p: int| 0 <= p < i implies req_state_applied(post, #[trigger] reqs[p]) by {
        lemma_state_applied_extends(post, pre, reqs[p]);
    }
}

/// The constraint correspondence survives a step that keeps the
/// constraints and may only append names.
proof fn lemma_correspondence_unchanged<S>(
    post: System<S>,
    pre: System<S>,
    reqs: Seq<ConstraintRequest<S>>,
    i: int,
)
    requires
        0 <= i < reqs.len(),
        !(reqs[i] is FixBase),
        post.constraints == pre.constraints,
        state_extends(post, pre),
        pre.constraints@.len() == count_fixbase(reqs.subrange(0, i)),
        forall|p: int|
            0 <= p < i ==> ((#[trigger] reqs[p]) matches ConstraintRequest::FixBase {
                object,
                reference,
                parameters,
            } ==> 0 <= count_fixbase(reqs.subrange(0, p)) < pre.constraints@.len()
                && fixbase_matches(
                pre,
                pre.constraints@[count_fixbase(reqs.subrange(0, p))],
                object@,
                reference@,
                parameters,
            )),
    ensures
        post.constraints@.len() == count_fixbase(reqs.subrange(0, i + 1)),
        forall|p: int|
            0 <= p < i + 1 ==> ((#[trigger] reqs[p]) matches ConstraintRequest::FixBase {
                object,
                reference,
                parameters,
            } ==> 0 <= count_fixbase(reqs.subrange(0, p)) < post.constraints@.len()
                && fixbase_matches(
                post,
                post.constraints@[count_fixbase(reqs.subrange(0, p))],
                object@,
                reference@,
                parameters,
            )),
{
    reveal(state_extends);
    reveal(fixbase_matches);
    lemma_count_fixbase_step(reqs, i);
    assert forall|p: int| 0 <= p < i + 1 implies ((#[trigger] reqs[p])
        matches ConstraintRequest::FixBase { object, reference, parameters } ==> 0 <= count_fixbase(
        reqs.subrange(0, p),
    ) < post.constraints@.len() && fixbase_matches(
        post,
        post.constraints@[count_fixbase(reqs.subrange(0, p))],
        object@,
        reference@,
        parameters,
    )) by {
        if p < i {
            match reqs[p] {
                ConstraintRequest::FixBase { object: fo, reference: fr, parameters: fp } => {
                    assert(fixbase_matches(
                        pre,
                        pre.constraints@[count_fixbase(reqs.subrange(0, p))],
                        fo@,
                        fr@,
                        fp,
                    ));
                },
                _ => (),
            }
        }
    }
}

/// The constraint correspondence after a fix-base step: the old ones keep
/// their places, the new one sits at the old count.
proof fn lemma_correspondence_appended<S>(
    post: System<S>,
    pre: System<S>,
    reqs: Seq<ConstraintRequest<S>>,
    i: int,
    object: Seq<char>,
    reference: Seq<char>,
    params: AxisValues<S>,
)
    requires
        0 <= i < reqs.len(),
        (reqs[i] matches ConstraintRequest::FixBase { object: ro, reference: rr, parameters: rp }
            && ro@ == object && rr@ == reference && rp == params),
        post.constraints@.len() == pre.constraints@.len() + 1,
        forall|j: int|
            0 <= j < pre.constraints@.len() ==> #[trigger] post.constraints@[j]
                == pre.constraints@[j],
        fixbase_matches(
            post,
            post.constraints@[pre.constraints@.len() as int],
            object,
            reference,
            params,
        ),
        state_extends(post, pre),
        pre.constraints@.len() == count_fixbase(reqs.subrange(0, i)),
        forall|p: int|
            0 <= p < i ==> ((#[trigger] reqs[p]) matches ConstraintRequest::FixBase {
                object,
                reference,
                parameters,
            } ==> 0 <= count_fixbase(reqs.subrange(0, p)) < pre.constraints@.len()
                && fixbase_matches(
                pre,
                pre.constraints@[count_fixbase(reqs.subrange(0, p))],
                object@,
                reference@,
                parameters,
            )),
    ensures
        post.constraints@.len() == count_fixbase(reqs.subrange(0, i + 1)),
        forall|p: int|
            0 <= p < i + 1 ==> ((#[trigger] reqs[p]) matches ConstraintRequest::FixBase {
                object,
                reference,
                parameters,
            } ==> 0 <= count_fixbase(reqs.subrange(0, p)) < post.constraints@.len()
                && fixbase_matches(
                post,
                post.constraints@[count_fixbase(reqs.subrange(0, p))],
                object@,
                reference@,
                parameters,
            )),
{
    reveal(state_extends);
    reveal(fixbase_matches);
    lemma_count_fixbase_step(reqs, i);
    assert forall|p: int| 0 <= p < i + 1 implies ((#[trigger] reqs[p])
        matches ConstraintRequest::FixBase { object: fo, reference: fr, parameters: fp }
        ==> 0 <= count_fixbase(reqs.subrange(0, p)) < post.constraints@.len() && fixbase_matches(
        post,
        post.constraints@[count_fixbase(reqs.subrange(0, p))],
        fo@,
        fr@,
        fp,
    )) by {
        if p < i {
            match reqs[p] {
                ConstraintRequest::FixBase { object: fo, reference: fr, parameters: fp } => {
                    assert(fixbase_matches(
                        pre,
                        pre.constraints@[count_fixbase(reqs.subrange(0, p))],
                        fo@,
                        fr@,
                        fp,
                    ));
                    assert(post.constraints@[count_fixbase(reqs.subrange(0, p))]
                        == pre.constraints@[count_fixbase(reqs.subrange(0, p))]);
                },
                _ => (),
            }
        } else if p == i {
            lemma_count_fixbase_monotone(reqs, 0, i);
            assert(count_fixbase(reqs.subrange(0, 0)) == 0) by {
                assert(reqs.subrange(0, 0) =~= Seq::<ConstraintRequest<S>>::empty());
            }
        }
    }
}

/// Looks a name up in the host's object list and hands back its placement
/// values: those of the first entry carrying the name.
fn find_params<S: Copy>(objects: &Vec<(String, AxisValues<S>)>, name: &str) -> (r: Option<
    AxisValues<S>,
>)
    ensures
        r is Some <==> object_listed(objects@, name@),
        r is Some ==> r->Some_0 == listed_params(objects@, name@),
{
    let mut i: usize = 0;
    while i < objects.len()
        invariant
            i <= objects@.len(),
            forall|j: int| 0 <= j < i ==> (#[trigger] objects@[j].0)@ != name@,
        decreases objects@.len() - i,
    {
        if str_eq(objects[i].0.as_str(), name) {
            proof {
                lemma_listed_params_skip(objects@, name@, i as int);
                assert((objects@.skip(i as int)[0].0)@ == name@);
                assert(objects@.skip(i as int)[0] == objects@[i as int]);
            }
            return Some(objects[i].1);
        }
        i = i + 1;
    }
    None
}


/// A variable as registration creates it for a listed placement: the axis
/// value as listed, disabled, unlocked, unaliased.
pub open spec fn fresh_listed_var<S>(
    objects: Seq<(String, AxisValues<S>)>,
    name: Seq<char>,
    a: VariableName,
) -> Variable<S> {
    Variable {
        index: 0,
        value: axis_entry(listed_params(objects, name), a)->Some_0,
        initial_value: axis_entry(listed_params(objects, name), a)->Some_0,
        locked: false,
        enabled: false,
        equal: None,
    }
}

/// What a lock request does to one variable: the addressed axes of the
/// named object take the locked value, everything else stays.
pub open spec fn lock_var_step<S>(
    v: Variable<S>,
    name: Seq<char>,
    object: Seq<char>,
    params: AxisValues<S>,
    a: VariableName,
) -> Variable<S> {
    if name == object && axis_present(params, a) {
        Variable {
            value: axis_entry(params, a)->Some_0,
            initial_value: axis_entry(params, a)->Some_0,
            locked: true,
            enabled: true,
            ..v
        }
    } else {
        v
    }
}

/// The whole effect of one lock request, from the state `pre` to the state
/// `post`: at most the named object is newly registered (with its listed
/// placement), the lock's value/lock/enable step is applied to that object
/// axis by axis, both of its caches are switched live, and nothing else in
/// the system moves.
pub open spec fn lock_request_applied<S>(
    post: System<S>,
    pre: System<S>,
    objects: Seq<(String, AxisValues<S>)>,
    object: Seq<char>,
    params: AxisValues<S>,
) -> bool {
    &&& post.wf()
    &&& post.zero == pre.zero
    &&& post.constraints == pre.constraints
    &&& state_extends(post, pre)
    &&& has_name(post, object)
    &&& forall|n: int|
        pre.sys_names@.len() <= n < post.sys_names@.len() ==> (#[trigger] post.sys_names@[n])@
            == object && !has_name(pre, object)
    &&& forall|n: int, a: VariableName|
        0 <= n < pre.sys_objects@.len() ==> #[trigger] axis_var(post.sys_objects@[n].vars, a)
            == lock_var_step(
            axis_var(pre.sys_objects@[n].vars, a),
            (pre.sys_names@[n])@,
            object,
            params,
            a,
        )
    &&& forall|n: int, a: VariableName|
        pre.sys_objects@.len() <= n < post.sys_objects@.len() ==> #[trigger] axis_var(
            post.sys_objects@[n].vars,
            a,
        ) == lock_var_step(
            fresh_listed_var(objects, (post.sys_names@[n])@, a),
            (post.sys_names@[n])@,
            object,
            params,
            a,
        )
    &&& forall|n: int|
        0 <= n < pre.sys_objects@.len() ==> (#[trigger] post.sys_objects@[n]).q_enable == (
        pre.sys_objects@[n].q_enable || (pre.sys_names@[n])@ == object)
            && post.sys_objects@[n].v_enable == (pre.sys_objects@[n].v_enable || (
            pre.sys_names@[n])@ == object)
    &&& forall|n: int|
        pre.sys_objects@.len() <= n < post.sys_objects@.len() ==> (#[trigger] post.sys_objects@[
            n
        ]).q_enable && post.sys_objects@[n].v_enable
}

/// Registers the named object if it is new and applies the lock to it.
#[verifier::rlimit(100)]
fn apply_lock_request<S: DualAlgebra>(
    system: &mut System<S>,
    objects: &Vec<(String, AxisValues<S>)>,
    object: &String,
    parameters: &AxisValues<S>,
) -> (r: Result<(), BuildError>)
    requires
        old(system).wf(),
    ensures
        r is Ok ==> lock_request_applied(
            *final(system),
            *old(system),
            objects@,
            object@,
            *parameters,
        ),
        r matches Err(BuildError::MissingObject { name }) ==> name@ == object@ && !object_listed(
            objects@,
            object@,
        ),
        r matches Err(BuildError::MissingAxis { object: err_name, axis }) ==> err_name@ == object@
            && object_listed(objects@, object@) && first_missing_axis(
            listed_params(objects@, object@),
        ) == Some(axis),
        !(r matches Err(BuildError::SelfReference { .. })),
{
    let obj_params = match find_params(objects, object.as_str()) {
        Some(p) => p,
        None => {
            return Err(BuildError::MissingObject { name: object.as_str().to_owned() });
        },
    };
    match system.add_object(object.as_str(), &obj_params) {
        Ok(()) => (),
        Err(e) => {
            return Err(e);
        },
    }
    let obj_idx = match system.get_object_index(object.as_str()) {
        Some(k) => k,
        None => {
            proof {
                assert(false);
            }
            return Err(BuildError::MissingObject { name: object.as_str().to_owned() });
        },
    };
    let ghost mid = *system;
    let target = &mut system.sys_objects[obj_idx];
    set_up_locks(parameters, target);
    proof {
        let fin = *system;
        assert(fin.sys_names == mid.sys_names);
        assert(fin.constraints == mid.constraints);
        // The locked object is the unique carrier of the name.
        assert((mid.sys_names@[obj_idx as int])@ == object@);
        assert(forall|n: int|
            0 <= n < mid.sys_names@.len() && n != obj_idx ==> (#[trigger] mid.sys_names@[n])@
                != object@);
        // Variables: the lock step applies at the named object, identity
        // elsewhere.
        assert forall|n: int, a: VariableName| 0 <= n < fin.sys_objects@.len() implies #[trigger] axis_var(
            fin.sys_objects@[n].vars,
            a,
        ) == lock_var_step(
            axis_var(mid.sys_objects@[n].vars, a),
            (mid.sys_names@[n])@,
            object@,
            *parameters,
            a,
        ) by {
            if n == obj_idx {
                assert(axis_var(fin.sys_objects@[n].vars, a) == (
                if axis_present(*parameters, a) {
                    Variable {
                        value: axis_entry(*parameters, a)->Some_0,
                        initial_value: axis_entry(*parameters, a)->Some_0,
                        locked: true,
                        enabled: true,
                        ..axis_var(mid.sys_objects@[n].vars, a)
                    }
                } else {
                    axis_var(mid.sys_objects@[n].vars, a)
                }));
            } else {
                assert(fin.sys_objects@[n] == mid.sys_objects@[n]);
            }
        }
        assert(fin.wf());
        reveal(lock_request_applied);
        reveal(state_extends);
    }
    Ok(())
}


/// What an equality request may do to one variable: the addressed axes of
/// the first object are enabled, those of the second are enabled and
/// aliased, and every other variable stays.
pub open spec fn equality_var_step_ok<S>(
    post: Variable<S>,
    v: Variable<S>,
    name: Seq<char>,
    o1: Seq<char>,
    o2: Seq<char>,
    params: AxisValues<S>,
    a: VariableName,
) -> bool {
    if name == o1 && axis_present(params, a) {
        post == Variable { enabled: true, ..v }
    } else if name == o2 && axis_present(params, a) {
        exists|t: (usize, VariableName)| post == Variable { enabled: true, equal: Some(t), ..v }
    } else {
        post == v
    }
}

/// The whole effect of one equality request, from `pre` to `post`: at most
/// the two named objects are newly registered (with their listed
/// placements), the enable/alias step is applied axis by axis, both
/// objects' caches are switched live, and nothing else moves.  The exact
/// alias target - the first object's variable, or its own target where that
/// variable is already an alias - is the business of
/// [`set_up_equalities`]'s contract.
pub open spec fn equality_request_applied<S>(
    post: System<S>,
    pre: System<S>,
    objects: Seq<(String, AxisValues<S>)>,
    o1: Seq<char>,
    o2: Seq<char>,
    params: AxisValues<S>,
) -> bool {
    &&& post.wf()
    &&& post.zero == pre.zero
    &&& post.constraints == pre.constraints
    &&& state_extends(post, pre)
    &&& o1 != o2
    &&& has_name(post, o1)
    &&& has_name(post, o2)
    &&& forall|n: int|
        pre.sys_names@.len() <= n < post.sys_names@.len() ==> ((#[trigger] post.sys_names@[n])@
            == o1 || (post.sys_names@[n])@ == o2) && !has_name(pre, (post.sys_names@[n])@)
    &&& forall|n: int, a: VariableName|
        0 <= n < pre.sys_objects@.len() ==> equality_var_step_ok(
            #[trigger] axis_var(post.sys_objects@[n].vars, a),
            axis_var(pre.sys_objects@[n].vars, a),
            (pre.sys_names@[n])@,
            o1,
            o2,
            params,
            a,
        )
    &&& forall|n: int, a: VariableName|
        pre.sys_objects@.len() <= n < post.sys_objects@.len() ==> equality_var_step_ok(
            #[trigger] axis_var(post.sys_objects@[n].vars, a),
            fresh_listed_var(objects, (post.sys_names@[n])@, a),
            (post.sys_names@[n])@,
            o1,
            o2,
            params,
            a,
        )
    &&& forall|n: int|
        0 <= n < pre.sys_objects@.len() ==> (#[trigger] post.sys_objects@[n]).q_enable == (
        pre.sys_objects@[n].q_enable || (pre.sys_names@[n])@ == o1 || (pre.sys_names@[n])@ == o2)
            && post.sys_objects@[n].v_enable == (pre.sys_objects@[n].v_enable || (
            pre.sys_names@[n])@ == o1 || (pre.sys_names@[n])@ == o2)
    &&& forall|n: int|
        pre.sys_objects@.len() <= n < post.sys_objects@.len() ==> (#[trigger] post.sys_objects@[
            n
        ]).q_enable && post.sys_objects@[n].v_enable
}

/// Registers the two named objects if they are new and applies the
/// equality between them.
#[verifier::rlimit(100)]
fn apply_equality_request<S: DualAlgebra>(
    system: &mut System<S>,
    objects: &Vec<(String, AxisValues<S>)>,
    object1: &String,
    object2: &String,
    parameters: &AxisValues<S>,
) -> (r: Result<(), BuildError>)
    requires
        old(system).wf(),
    ensures
        r is Ok ==> equality_request_applied(
            *final(system),
            *old(system),
            objects@,
            object1@,
            object2@,
            *parameters,
        ),
        r is Ok ==> final(system).wf() && final(system).zero == old(system).zero
            && final(system).constraints == old(system).constraints
            && state_extends(*final(system), *old(system)),
        r is Ok ==> object1@ != object2@ && has_name(*final(system), object1@) && has_name(
            *final(system),
            object2@,
        ) && (forall|n: int|
            old(system).sys_names@.len() <= n < final(system).sys_names@.len() ==> (#[trigger] final(system).sys_names@[n])@ == object1@ || (final(system).sys_names@[n])@ == object2@),
        r matches Err(BuildError::MissingObject { name }) ==> (name@ == object1@ || name@
            == object2@) && !object_listed(objects@, name@),
        r matches Err(BuildError::MissingAxis { object: err_name, axis }) ==> (err_name@
            == object1@ || err_name@ == object2@) && object_listed(objects@, err_name@)
            && first_missing_axis(listed_params(objects@, err_name@)) == Some(axis),
        r matches Err(BuildError::SelfReference { name }) ==> name@ == object1@ && object1@
            == object2@,
{
    let obj1_params = match find_params(objects, object1.as_str()) {
        Some(p) => p,
        None => {
            return Err(BuildError::MissingObject { name: object1.as_str().to_owned() });
        },
    };
    let obj2_params = match find_params(objects, object2.as_str()) {
        Some(p) => p,
        None => {
            return Err(BuildError::MissingObject { name: object2.as_str().to_owned() });
        },
    };
    let ghost pre = *system;
    match system.add_object(object1.as_str(), &obj1_params) {
        Ok(()) => (),
        Err(e) => {
            return Err(e);
        },
    }
    let ghost mid1 = *system;
    match system.add_object(object2.as_str(), &obj2_params) {
        Ok(()) => (),
        Err(e) => {
            return Err(e);
        },
    }
    let ghost mid2 = *system;
    let object1_idx = match system.get_object_index(object1.as_str()) {
        Some(k) => k,
        None => {
            proof {
                assert(false);
            }
            return Err(BuildError::MissingObject { name: object1.as_str().to_owned() });
        },
    };
    let object2_idx = match system.get_object_index(object2.as_str()) {
        Some(k) => k,
        None => {
            proof {
                assert(false);
            }
            return Err(BuildError::MissingObject { name: object2.as_str().to_owned() });
        },
    };
    if object1_idx == object2_idx {
        proof {
            assert(object1@ == object2@);
        }
        return Err(BuildError::SelfReference { name: object1.as_str().to_owned() });
    }
    set_up_equalities(parameters, object1_idx, object2_idx, &mut system.sys_objects);
    proof {
        let fin = *system;
        assert(fin.sys_names == mid2.sys_names);
        assert(fin.constraints == mid2.constraints);
        assert((mid2.sys_names@[object1_idx as int])@ == object1@);
        assert((mid2.sys_names@[object2_idx as int])@ == object2@);
        assert(forall|n: int|
            0 <= n < mid2.sys_names@.len() && n != object1_idx ==> (#[trigger] mid2.sys_names@[
                n
            ])@ != object1@);
        assert(forall|n: int|
            0 <= n < mid2.sys_names@.len() && n != object2_idx ==> (#[trigger] mid2.sys_names@[
                n
            ])@ != object2@);
        assert forall|n: int, a: VariableName|
            0 <= n < fin.sys_objects@.len() implies equality_var_step_ok(
            #[trigger] axis_var(fin.sys_objects@[n].vars, a),
            axis_var(mid2.sys_objects@[n].vars, a),
            (mid2.sys_names@[n])@,
            object1@,
            object2@,
            *parameters,
            a,
        ) by {
            if n == object1_idx {
                if axis_present(*parameters, a) {
                    assert(axis_var(fin.sys_objects@[n].vars, a) == (Variable {
                        enabled: true,
                        ..axis_var(mid2.sys_objects@[n].vars, a)
                    }));
                } else {
                    assert(axis_var(fin.sys_objects@[n].vars, a) == axis_var(
                        mid2.sys_objects@[n].vars,
                        a,
                    ));
                }
            } else if n == object2_idx {
                if axis_present(*parameters, a) {
                    assert(axis_var(fin.sys_objects@[n].vars, a) == (Variable {
                        enabled: true,
                        equal: Some(
                            crate::constraints::equality_constraint::alias_target(
                                mid2.sys_objects@[object1_idx as int],
                                object1_idx,
                                a,
                            ),
                        ),
                        ..axis_var(mid2.sys_objects@[n].vars, a)
                    }));
                } else {
                    assert(axis_var(fin.sys_objects@[n].vars, a) == axis_var(
                        mid2.sys_objects@[n].vars,
                        a,
                    ));
                }
            } else {
                assert(fin.sys_objects@[n] == mid2.sys_objects@[n]);
            }
        }
        assert(fin.wf());
        reveal(equality_request_applied);
        reveal(state_extends);
    }
    Ok(())
}

/// What a fix-base request does to one variable: the addressed axes of the
/// fixed object and of the reference are enabled, as are the reference's
/// three rotation angles; everything else stays.
pub open spec fn fixbase_var_step<S>(
    v: Variable<S>,
    name: Seq<char>,
    object: Seq<char>,
    reference: Seq<char>,
    params: AxisValues<S>,
    a: VariableName,
) -> Variable<S> {
    if (name == object && axis_present(params, a)) || (name == reference && (axis_present(
        params,
        a,
    ) || is_rotation_axis(a))) {
        Variable { enabled: true, ..v }
    } else {
        v
    }
}

/// The whole effect of one fix-base request, from `pre` to `post`: at most
/// the two named objects are newly registered (with their listed
/// placements), the enable step is applied axis by axis, the caches the
/// constraint needs are switched live, and exactly one new constraint
/// between the two bodies - carrying the requested offsets and zeroed
/// scratch buffers - is appended.
pub open spec fn fixbase_request_applied<S>(
    post: System<S>,
    pre: System<S>,
    objects: Seq<(String, AxisValues<S>)>,
    object: Seq<char>,
    reference: Seq<char>,
    params: AxisValues<S>,
) -> bool {
    &&& post.wf()
    &&& post.zero == pre.zero
    &&& state_extends(post, pre)
    &&& has_name(post, object)
    &&& has_name(post, reference)
    &&& post.constraints@.len() == pre.constraints@.len() + 1
    &&& forall|j: int|
        0 <= j < pre.constraints@.len() ==> #[trigger] post.constraints@[j]
            == pre.constraints@[j]
    &&& fixbase_matches(
        post,
        post.constraints@[pre.constraints@.len() as int],
        object,
        reference,
        params,
    )
    &&& forall|n: int|
        pre.sys_names@.len() <= n < post.sys_names@.len() ==> ((#[trigger] post.sys_names@[n])@
            == object || (post.sys_names@[n])@ == reference) && !has_name(
            pre,
            (post.sys_names@[n])@,
        )
    &&& forall|n: int, a: VariableName|
        0 <= n < pre.sys_objects@.len() ==> #[trigger] axis_var(post.sys_objects@[n].vars, a)
            == fixbase_var_step(
            axis_var(pre.sys_objects@[n].vars, a),
            (pre.sys_names@[n])@,
            object,
            reference,
            params,
            a,
        )
    &&& forall|n: int, a: VariableName|
        pre.sys_objects@.len() <= n < post.sys_objects@.len() ==> #[trigger] axis_var(
            post.sys_objects@[n].vars,
            a,
        ) == fixbase_var_step(
            fresh_listed_var(objects, (post.sys_names@[n])@, a),
            (post.sys_names@[n])@,
            object,
            reference,
            params,
            a,
        )
    &&& forall|n: int|
        0 <= n < pre.sys_objects@.len() ==> (#[trigger] post.sys_objects@[n]).q_enable == (
        pre.sys_objects@[n].q_enable || (pre.sys_names@[n])@ == reference)
            && post.sys_objects@[n].v_enable == (pre.sys_objects@[n].v_enable || (
            pre.sys_names@[n])@ == object || (pre.sys_names@[n])@ == reference)
    &&& forall|n: int|
        pre.sys_objects@.len() <= n < post.sys_objects@.len() ==> (#[trigger] post.sys_objects@[
            n
        ]).v_enable && post.sys_objects@[n].q_enable == ((post.sys_names@[n])@ == reference)
}

/// Registers the two named objects if they are new, applies the enabling
/// step and appends the fix-base constraint between them.
#[verifier::rlimit(100)]
fn apply_fixbase_request<S: DualAlgebra>(
    system: &mut System<S>,
    objects: &Vec<(String, AxisValues<S>)>,
    object: &String,
    reference: &String,
    parameters: &AxisValues<S>,
) -> (r: Result<(), BuildError>)
    requires
        old(system).wf(),
    ensures
        r is Ok ==> fixbase_request_applied(
            *final(system),
            *old(system),
            objects@,
            object@,
            reference@,
            *parameters,
        ),
        r is Ok ==> final(system).wf() && final(system).zero == old(system).zero && state_extends(
            *final(system),
            *old(system),
        ),
        r is Ok ==> final(system).constraints@.len() == old(system).constraints@.len() + 1 && (
        forall|j: int|
            0 <= j < old(system).constraints@.len() ==> #[trigger] final(system).constraints@[j]
                == old(system).constraints@[j]) && fixbase_matches(
            *final(system),
            final(system).constraints@[old(system).constraints@.len() as int],
            object@,
            reference@,
            *parameters,
        ),
        r is Ok ==> has_name(*final(system), object@) && has_name(*final(system), reference@) && (
        forall|n: int|
            old(system).sys_names@.len() <= n < final(system).sys_names@.len() ==> (#[trigger] final(system).sys_names@[n])@ == object@ || (final(system).sys_names@[n])@ == reference@),
        r matches Err(BuildError::MissingObject { name }) ==> (name@ == object@ || name@
            == reference@) && !object_listed(objects@, name@),
        r matches Err(BuildError::MissingAxis { object: err_name, axis }) ==> (err_name@
            == object@ || err_name@ == reference@) && object_listed(objects@, err_name@)
            && first_missing_axis(listed_params(objects@, err_name@)) == Some(axis),
        r matches Err(BuildError::SelfReference { name }) ==> name@ == object@ && object@
            == reference@,
{
    let obj_params = match find_params(objects, object.as_str()) {
        Some(p) => p,
        None => {
            return Err(BuildError::MissingObject { name: object.as_str().to_owned() });
        },
    };
    let ref_params = match find_params(objects, reference.as_str()) {
        Some(p) => p,
        None => {
            return Err(BuildError::MissingObject { name: reference.as_str().to_owned() });
        },
    };
    match system.add_object(object.as_str(), &obj_params) {
        Ok(()) => (),
        Err(e) => {
            return Err(e);
        },
    }
    match system.add_object(reference.as_str(), &ref_params) {
        Ok(()) => (),
        Err(e) => {
            return Err(e);
        },
    }
    let obj_idx = match system.get_object_index(object.as_str()) {
        Some(k) => k,
        None => {
            proof {
                assert(false);
            }
            return Err(BuildError::MissingObject { name: object.as_str().to_owned() });
        },
    };
    let ref_idx = match system.get_object_index(reference.as_str()) {
        Some(k) => k,
        None => {
            proof {
                assert(false);
            }
            return Err(BuildError::MissingObject { name: reference.as_str().to_owned() });
        },
    };
    if obj_idx == ref_idx {
        proof {
            assert(object@ == reference@);
        }
        return Err(BuildError::SelfReference { name: object.as_str().to_owned() });
    }
    let ghost mid2 = *system;
    let fix_base_constraint = FixBaseConstraint::new(
        &mut system.sys_objects,
        parameters,
        obj_idx,
        ref_idx,
    );
    let ghost fin_objs = system.sys_objects@;
    proof {
        assert((mid2.sys_names@[obj_idx as int])@ == object@);
        assert((mid2.sys_names@[ref_idx as int])@ == reference@);
        assert(forall|n: int|
            0 <= n < mid2.sys_names@.len() && n != obj_idx ==> (#[trigger] mid2.sys_names@[n])@
                != object@);
        assert(forall|n: int|
            0 <= n < mid2.sys_names@.len() && n != ref_idx ==> (#[trigger] mid2.sys_names@[n])@
                != reference@);
        assert forall|n: int, a: VariableName|
            0 <= n < fin_objs.len() implies #[trigger] axis_var(fin_objs[n].vars, a)
            == fixbase_var_step(
            axis_var(mid2.sys_objects@[n].vars, a),
            (mid2.sys_names@[n])@,
            object@,
            reference@,
            *parameters,
            a,
        ) by {
            if n == obj_idx {
                if axis_present(*parameters, a) {
                    assert(axis_var(fin_objs[n].vars, a) == (Variable {
                        enabled: true,
                        ..axis_var(mid2.sys_objects@[n].vars, a)
                    }));
                } else {
                    assert(axis_var(fin_objs[n].vars, a) == axis_var(
                        mid2.sys_objects@[n].vars,
                        a,
                    ));
                }
            } else if n == ref_idx {
                if axis_present(*parameters, a) || is_rotation_axis(a) {
                    assert(axis_var(fin_objs[n].vars, a) == (Variable {
                        enabled: true,
                        ..axis_var(mid2.sys_objects@[n].vars, a)
                    }));
                } else {
                    assert(axis_var(fin_objs[n].vars, a) == axis_var(
                        mid2.sys_objects@[n].vars,
                        a,
                    ));
                }
            } else {
                assert(fin_objs[n] == mid2.sys_objects@[n]);
            }
        }
    }
    system.constraints.push(ConstraintType::FixBaseConstraint(fix_base_constraint));
    proof {
        let fin = *system;
        assert(fin.constraints@.drop_last() =~= mid2.constraints@);
        assert(fin.constraints@[mid2.constraints@.len() as int]
            == ConstraintType::FixBaseConstraint(fix_base_constraint));
        assert(fin.wf());
        reveal(fixbase_request_applied);
        reveal(state_extends);
        reveal(fixbase_matches);
    }
    Ok(())
}


/// The build-loop facts, over a prefix of the requests: every processed
/// request's state is applied, the
/// constraints correspond one-to-one and in order to the processed fix-base
/// requests, every axis no processed lock addresses holds its listed
/// placement value unlocked, and no solver index has been touched.
pub open spec fn build_invariant<S>(
    s: System<S>,
    objects: Seq<(String, AxisValues<S>)>,
    reqs: Seq<ConstraintRequest<S>>,
    i: int,
) -> bool {
    &&& s.wf()
    &&& forall|p: int| 0 <= p < i ==> req_state_applied(s, #[trigger] reqs[p])
    &&& s.constraints@.len() == count_fixbase(reqs.subrange(0, i))
    &&& forall|p: int|
        0 <= p < i ==> ((#[trigger] reqs[p]) matches ConstraintRequest::FixBase {
            object,
            reference,
            parameters,
        } ==> 0 <= count_fixbase(reqs.subrange(0, p)) < s.constraints@.len() && fixbase_matches(
            s,
            s.constraints@[count_fixbase(reqs.subrange(0, p))],
            object@,
            reference@,
            parameters,
        ))
    &&& forall|n: int, a: VariableName|
        0 <= n < s.sys_names@.len() && !lock_addresses(
            reqs.subrange(0, i),
            (s.sys_names@[n])@,
            a,
        ) ==> !(#[trigger] axis_var(s.sys_objects@[n].vars, a)).locked && axis_var(
            s.sys_objects@[n].vars,
            a,
        ).value == axis_var(s.sys_objects@[n].vars, a).initial_value && axis_var(
            s.sys_objects@[n].vars,
            a,
        ).value == axis_entry(listed_params(objects, (s.sys_names@[n])@), a)->Some_0
    &&& forall|n: int, a: VariableName|
        0 <= n < s.sys_objects@.len() ==> (#[trigger] axis_var(
            s.sys_objects@[n].vars,
            a,
        )).index == 0
}

/// A lock address in a request prefix is one in any longer prefix, and the
/// only new addresses of the step prefix come from the step's own request.
proof fn lemma_lock_addresses_step<S>(
    reqs: Seq<ConstraintRequest<S>>,
    i: int,
    name: Seq<char>,
    a: VariableName,
)
    requires
        0 <= i < reqs.len(),
    ensures
        lock_addresses(reqs.subrange(0, i), name, a) ==> lock_addresses(
            reqs.subrange(0, i + 1),
            name,
            a,
        ),
        lock_addresses(reqs.subrange(0, i + 1), name, a) && !lock_addresses(
            reqs.subrange(0, i),
            name,
            a,
        ) ==> (reqs[i] matches ConstraintRequest::Lock { object, parameters } && object@ == name
            && axis_present(parameters, a)),
        (reqs[i] matches ConstraintRequest::Lock { object, parameters } && object@ == name
            && axis_present(parameters, a)) ==> lock_addresses(
            reqs.subrange(0, i + 1),
            name,
            a,
        ),
{
    assert(reqs.subrange(0, i + 1)[i] == reqs[i]);
    if lock_addresses(reqs.subrange(0, i), name, a) {
        let p = choose|p: int|
            0 <= p < reqs.subrange(0, i).len() && ((#[trigger] reqs.subrange(0, i)[p])
                matches ConstraintRequest::Lock { object, parameters } && object@ == name
                && axis_present(parameters, a));
        assert(reqs.subrange(0, i + 1)[p] == reqs.subrange(0, i)[p]);
        assert(lock_addresses(reqs.subrange(0, i + 1), name, a));
    }
    if lock_addresses(reqs.subrange(0, i + 1), name, a) && !lock_addresses(
        reqs.subrange(0, i),
        name,
        a,
    ) {
        let p = choose|p: int|
            0 <= p < reqs.subrange(0, i + 1).len() && ((#[trigger] reqs.subrange(0, i + 1)[p])
                matches ConstraintRequest::Lock { object, parameters } && object@ == name
                && axis_present(parameters, a));
        if p < i {
            assert(reqs.subrange(0, i)[p] == reqs.subrange(0, i + 1)[p]);
            assert(lock_addresses(reqs.subrange(0, i), name, a));
        }
        assert(p == i);
        assert(reqs.subrange(0, i + 1)[i] == reqs[i]);
    }
}

/// The placement provenance and untouched indices survive one applied
/// lock request.
#[verifier::rlimit(100)]
proof fn lemma_lock_vars<S>(
    post: System<S>,
    pre: System<S>,
    objects: Seq<(String, AxisValues<S>)>,
    reqs: Seq<ConstraintRequest<S>>,
    i: int,
    object: Seq<char>,
    params: AxisValues<S>,
)
    requires
        0 <= i < reqs.len(),
        (reqs[i] matches ConstraintRequest::Lock { object: ro, parameters: rp } && ro@ == object
            && rp == params),
        lock_request_applied(post, pre, objects, object, params),
        forall|n: int, a: VariableName|
            0 <= n < pre.sys_names@.len() && !lock_addresses(
                reqs.subrange(0, i),
                (pre.sys_names@[n])@,
                a,
            ) ==> !(#[trigger] axis_var(pre.sys_objects@[n].vars, a)).locked && axis_var(
                pre.sys_objects@[n].vars,
                a,
            ).value == axis_var(pre.sys_objects@[n].vars, a).initial_value && axis_var(
                pre.sys_objects@[n].vars,
                a,
            ).value == axis_entry(listed_params(objects, (pre.sys_names@[n])@), a)->Some_0,
        forall|n: int, a: VariableName|
            0 <= n < pre.sys_objects@.len() ==> (#[trigger] axis_var(
                pre.sys_objects@[n].vars,
                a,
            )).index == 0,
    ensures
        forall|n: int, a: VariableName|
            0 <= n < post.sys_names@.len() && !lock_addresses(
                reqs.subrange(0, i + 1),
                (post.sys_names@[n])@,
                a,
            ) ==> !(#[trigger] axis_var(post.sys_objects@[n].vars, a)).locked && axis_var(
                post.sys_objects@[n].vars,
                a,
            ).value == axis_var(post.sys_objects@[n].vars, a).initial_value && axis_var(
                post.sys_objects@[n].vars,
                a,
            ).value == axis_entry(listed_params(objects, (post.sys_names@[n])@), a)->Some_0,
        forall|n: int, a: VariableName|
            0 <= n < post.sys_objects@.len() ==> (#[trigger] axis_var(
                post.sys_objects@[n].vars,
                a,
            )).index == 0,
{
    reveal(lock_request_applied);
    reveal(state_extends);
    assert forall|n: int, a: VariableName|
        0 <= n < post.sys_names@.len() && !lock_addresses(
            reqs.subrange(0, i + 1),
            (post.sys_names@[n])@,
            a,
        ) implies !(#[trigger] axis_var(post.sys_objects@[n].vars, a)).locked && axis_var(
        post.sys_objects@[n].vars,
        a,
    ).value == axis_var(post.sys_objects@[n].vars, a).initial_value && axis_var(
        post.sys_objects@[n].vars,
        a,
    ).value == axis_entry(listed_params(objects, (post.sys_names@[n])@), a)->Some_0 by {
        lemma_lock_addresses_step(reqs, i, (post.sys_names@[n])@, a);
        assert(!((post.sys_names@[n])@ == object && axis_present(params, a)));
        if n < pre.sys_names@.len() {
            assert(axis_var(post.sys_objects@[n].vars, a) == axis_var(
                pre.sys_objects@[n].vars,
                a,
            ));
        }
    }
    assert forall|n: int, a: VariableName| 0 <= n < post.sys_objects@.len() implies (
    #[trigger] axis_var(post.sys_objects@[n].vars, a)).index == 0 by {
        if n < pre.sys_objects@.len() {
            assert(axis_var(post.sys_objects@[n].vars, a) == lock_var_step(
                axis_var(pre.sys_objects@[n].vars, a),
                (pre.sys_names@[n])@,
                object,
                params,
                a,
            ));
        } else {
            assert(axis_var(post.sys_objects@[n].vars, a) == lock_var_step(
                fresh_listed_var(objects, (post.sys_names@[n])@, a),
                (post.sys_names@[n])@,
                object,
                params,
                a,
            ));
        }
    }
}

/// Carries the build-loop facts across one applied lock request.
#[verifier::rlimit(100)]
proof fn reestablish_after_lock<S>(
    post: System<S>,
    pre: System<S>,
    objects: Seq<(String, AxisValues<S>)>,
    reqs: Seq<ConstraintRequest<S>>,
    i: int,
    object: Seq<char>,
    params: AxisValues<S>,
)
    requires
        0 <= i < reqs.len(),
        (reqs[i] matches ConstraintRequest::Lock { object: ro, parameters: rp } && ro@ == object
            && rp == params),
        build_invariant(pre, objects, reqs, i),
        lock_request_applied(post, pre, objects, object, params),
        post.wf(),
        state_extends(post, pre),
        post.constraints == pre.constraints,
        has_name(post, object),
        forall|n: int|
            pre.sys_names@.len() <= n < post.sys_names@.len() ==> (#[trigger] post.sys_names@[n])@
                == object,
    ensures
        build_invariant(post, objects, reqs, i + 1),
{
    lemma_applied_prefix(post, pre, reqs, i);
    lemma_lock_own_state(post, pre, objects, reqs, i, object, params);
    lemma_correspondence_unchanged(post, pre, reqs, i);
    lemma_lock_vars(post, pre, objects, reqs, i, object, params);
}

/// A lock request's own state holds right after its step.
#[verifier::rlimit(100)]
proof fn lemma_lock_own_state<S>(
    post: System<S>,
    pre: System<S>,
    objects: Seq<(String, AxisValues<S>)>,
    reqs: Seq<ConstraintRequest<S>>,
    i: int,
    object: Seq<char>,
    params: AxisValues<S>,
)
    requires
        0 <= i < reqs.len(),
        (reqs[i] matches ConstraintRequest::Lock { object: ro, parameters: rp } && ro@ == object
            && rp == params),
        lock_request_applied(post, pre, objects, object, params),
    ensures
        req_state_applied(post, reqs[i]),
{
    reveal(lock_request_applied);
    reveal(req_state_applied);
    reveal(state_extends);
    let n1 = choose|n: int|
        0 <= n < post.sys_names@.len() && (#[trigger] post.sys_names@[n])@ == object;
    assert forall|a: VariableName| axis_present(params, a) implies axis_var(
        post.sys_objects@[n1].vars,
        a,
    ).locked && axis_var(post.sys_objects@[n1].vars, a).enabled by {
        if n1 < pre.sys_names@.len() {
            assert(axis_var(post.sys_objects@[n1].vars, a) == lock_var_step(
                axis_var(pre.sys_objects@[n1].vars, a),
                (pre.sys_names@[n1])@,
                object,
                params,
                a,
            ));
        } else {
            assert(axis_var(post.sys_objects@[n1].vars, a) == lock_var_step(
                fresh_listed_var(objects, (post.sys_names@[n1])@, a),
                (post.sys_names@[n1])@,
                object,
                params,
                a,
            ));
        }
    }
    assert(post.sys_objects@[n1].q_enable && post.sys_objects@[n1].v_enable);
}

/// The placement provenance and untouched indices survive one applied
/// fixbase request, whose step only enables variables.
#[verifier::rlimit(100)]
proof fn lemma_fixbase_vars<S>(
    post: System<S>,
    pre: System<S>,
    objects: Seq<(String, AxisValues<S>)>,
    reqs: Seq<ConstraintRequest<S>>,
    i: int,
    object: Seq<char>,
    reference: Seq<char>,
    params: AxisValues<S>,
)
    requires
        0 <= i < reqs.len(),
        !(reqs[i] is Lock),
        fixbase_request_applied(post, pre, objects, object, reference, params),
        forall|n: int, a: VariableName|
            0 <= n < pre.sys_names@.len() && !lock_addresses(
                reqs.subrange(0, i),
                (pre.sys_names@[n])@,
                a,
            ) ==> !(#[trigger] axis_var(pre.sys_objects@[n].vars, a)).locked && axis_var(
                pre.sys_objects@[n].vars,
                a,
            ).value == axis_var(pre.sys_objects@[n].vars, a).initial_value && axis_var(
                pre.sys_objects@[n].vars,
                a,
            ).value == axis_entry(listed_params(objects, (pre.sys_names@[n])@), a)->Some_0,
        forall|n: int, a: VariableName|
            0 <= n < pre.sys_objects@.len() ==> (#[trigger] axis_var(
                pre.sys_objects@[n].vars,
                a,
            )).index == 0,
    ensures
        forall|n: int, a: VariableName|
            0 <= n < post.sys_names@.len() && !lock_addresses(
                reqs.subrange(0, i + 1),
                (post.sys_names@[n])@,
                a,
            ) ==> !(#[trigger] axis_var(post.sys_objects@[n].vars, a)).locked && axis_var(
                post.sys_objects@[n].vars,
                a,
            ).value == axis_var(post.sys_objects@[n].vars, a).initial_value && axis_var(
                post.sys_objects@[n].vars,
                a,
            ).value == axis_entry(listed_params(objects, (post.sys_names@[n])@), a)->Some_0,
        forall|n: int, a: VariableName|
            0 <= n < post.sys_objects@.len() ==> (#[trigger] axis_var(
                post.sys_objects@[n].vars,
                a,
            )).index == 0,
{
    reveal(fixbase_request_applied);
    reveal(state_extends);
    assert forall|n: int, a: VariableName|
        0 <= n < post.sys_names@.len() && !lock_addresses(
            reqs.subrange(0, i + 1),
            (post.sys_names@[n])@,
            a,
        ) implies !(#[trigger] axis_var(post.sys_objects@[n].vars, a)).locked && axis_var(
        post.sys_objects@[n].vars,
        a,
    ).value == axis_var(post.sys_objects@[n].vars, a).initial_value && axis_var(
        post.sys_objects@[n].vars,
        a,
    ).value == axis_entry(listed_params(objects, (post.sys_names@[n])@), a)->Some_0 by {
        lemma_lock_addresses_step(reqs, i, (post.sys_names@[n])@, a);
        if n < pre.sys_names@.len() {
            assert(axis_var(post.sys_objects@[n].vars, a) == fixbase_var_step(
                axis_var(pre.sys_objects@[n].vars, a),
                (pre.sys_names@[n])@,
                object,
                reference,
                params,
                a,
            ));
        } else {
            assert(axis_var(post.sys_objects@[n].vars, a) == fixbase_var_step(
                fresh_listed_var(objects, (post.sys_names@[n])@, a),
                (post.sys_names@[n])@,
                object,
                reference,
                params,
                a,
            ));
        }
    }
    assert forall|n: int, a: VariableName| 0 <= n < post.sys_objects@.len() implies (
    #[trigger] axis_var(post.sys_objects@[n].vars, a)).index == 0 by {
        if n < pre.sys_objects@.len() {
            assert(axis_var(post.sys_objects@[n].vars, a) == fixbase_var_step(
                axis_var(pre.sys_objects@[n].vars, a),
                (pre.sys_names@[n])@,
                object,
                reference,
                params,
                a,
            ));
        } else {
            assert(axis_var(post.sys_objects@[n].vars, a) == fixbase_var_step(
                fresh_listed_var(objects, (post.sys_names@[n])@, a),
                (post.sys_names@[n])@,
                object,
                reference,
                params,
                a,
            ));
        }
    }
}

/// Carries the build-loop facts across one applied fix-base request.
#[verifier::rlimit(100)]
proof fn reestablish_after_fixbase<S>(
    post: System<S>,
    pre: System<S>,
    objects: Seq<(String, AxisValues<S>)>,
    reqs: Seq<ConstraintRequest<S>>,
    i: int,
    object: Seq<char>,
    reference: Seq<char>,
    params: AxisValues<S>,
)
    requires
        0 <= i < reqs.len(),
        (reqs[i] matches ConstraintRequest::FixBase { object: ro, reference: rr, parameters: rp }
            && ro@ == object && rr@ == reference && rp == params),
        build_invariant(pre, objects, reqs, i),
        fixbase_request_applied(post, pre, objects, object, reference, params),
        post.wf(),
        state_extends(post, pre),
        post.constraints@.len() == pre.constraints@.len() + 1,
        forall|j: int|
            0 <= j < pre.constraints@.len() ==> #[trigger] post.constraints@[j]
                == pre.constraints@[j],
        fixbase_matches(
            post,
            post.constraints@[pre.constraints@.len() as int],
            object,
            reference,
            params,
        ),
        has_name(post, object),
        has_name(post, reference),
        forall|n: int|
            pre.sys_names@.len() <= n < post.sys_names@.len() ==> (#[trigger] post.sys_names@[n])@
                == object || (post.sys_names@[n])@ == reference,
    ensures
        build_invariant(post, objects, reqs, i + 1),
{
    lemma_applied_prefix(post, pre, reqs, i);
    lemma_fixbase_own_state(post, pre, objects, reqs, i, object, reference, params);
    lemma_correspondence_appended(post, pre, reqs, i, object, reference, params);
    lemma_fixbase_vars(post, pre, objects, reqs, i, object, reference, params);
}

/// A fix-base request's own state holds right after its step.
#[verifier::rlimit(100)]
proof fn lemma_fixbase_own_state<S>(
    post: System<S>,
    pre: System<S>,
    objects: Seq<(String, AxisValues<S>)>,
    reqs: Seq<ConstraintRequest<S>>,
    i: int,
    object: Seq<char>,
    reference: Seq<char>,
    params: AxisValues<S>,
)
    requires
        0 <= i < reqs.len(),
        (reqs[i] matches ConstraintRequest::FixBase { object: ro, reference: rr, parameters: rp }
            && ro@ == object && rr@ == reference && rp == params),
        fixbase_request_applied(post, pre, objects, object, reference, params),
    ensures
        req_state_applied(post, reqs[i]),
{
    reveal(fixbase_request_applied);
    reveal(req_state_applied);
    reveal(state_extends);
    let n1 = choose|n: int|
        0 <= n < post.sys_names@.len() && (#[trigger] post.sys_names@[n])@ == object;
    assert forall|a: VariableName| axis_present(params, a) implies axis_var(
        post.sys_objects@[n1].vars,
        a,
    ).enabled by {
        if n1 < pre.sys_names@.len() {
            assert(axis_var(post.sys_objects@[n1].vars, a) == fixbase_var_step(
                axis_var(pre.sys_objects@[n1].vars, a),
                (pre.sys_names@[n1])@,
                object,
                reference,
                params,
                a,
            ));
        } else {
            assert(axis_var(post.sys_objects@[n1].vars, a) == fixbase_var_step(
                fresh_listed_var(objects, (post.sys_names@[n1])@, a),
                (post.sys_names@[n1])@,
                object,
                reference,
                params,
                a,
            ));
        }
    }
    assert(post.sys_objects@[n1].v_enable);
    let n2 = choose|n: int|
        0 <= n < post.sys_names@.len() && (#[trigger] post.sys_names@[n])@ == reference;
    assert forall|a: VariableName|
        axis_present(params, a) || is_rotation_axis(a) implies axis_var(
        post.sys_objects@[n2].vars,
        a,
    ).enabled by {
        if n2 < pre.sys_names@.len() {
            assert(axis_var(post.sys_objects@[n2].vars, a) == fixbase_var_step(
                axis_var(pre.sys_objects@[n2].vars, a),
                (pre.sys_names@[n2])@,
                object,
                reference,
                params,
                a,
            ));
        } else {
            assert(axis_var(post.sys_objects@[n2].vars, a) == fixbase_var_step(
                fresh_listed_var(objects, (post.sys_names@[n2])@, a),
                (post.sys_names@[n2])@,
                object,
                reference,
                params,
                a,
            ));
        }
    }
    assert(post.sys_objects@[n2].v_enable && post.sys_objects@[n2].q_enable);
    assert(req_state_applied(post, reqs[i]));
}

/// The placement provenance and untouched indices survive one applied
/// equality request, whose step only enables variables.
#[verifier::rlimit(100)]
proof fn lemma_equality_vars<S>(
    post: System<S>,
    pre: System<S>,
    objects: Seq<(String, AxisValues<S>)>,
    reqs: Seq<ConstraintRequest<S>>,
    i: int,
    o1: Seq<char>,
    o2: Seq<char>,
    params: AxisValues<S>,
)
    requires
        0 <= i < reqs.len(),
        !(reqs[i] is Lock),
        equality_request_applied(post, pre, objects, o1, o2, params),
        forall|n: int, a: VariableName|
            0 <= n < pre.sys_names@.len() && !lock_addresses(
                reqs.subrange(0, i),
                (pre.sys_names@[n])@,
                a,
            ) ==> !(#[trigger] axis_var(pre.sys_objects@[n].vars, a)).locked && axis_var(
                pre.sys_objects@[n].vars,
                a,
            ).value == axis_var(pre.sys_objects@[n].vars, a).initial_value && axis_var(
                pre.sys_objects@[n].vars,
                a,
            ).value == axis_entry(listed_params(objects, (pre.sys_names@[n])@), a)->Some_0,
        forall|n: int, a: VariableName|
            0 <= n < pre.sys_objects@.len() ==> (#[trigger] axis_var(
                pre.sys_objects@[n].vars,
                a,
            )).index == 0,
    ensures
        forall|n: int, a: VariableName|
            0 <= n < post.sys_names@.len() && !lock_addresses(
                reqs.subrange(0, i + 1),
                (post.sys_names@[n])@,
                a,
            ) ==> !(#[trigger] axis_var(post.sys_objects@[n].vars, a)).locked && axis_var(
                post.sys_objects@[n].vars,
                a,
            ).value == axis_var(post.sys_objects@[n].vars, a).initial_value && axis_var(
                post.sys_objects@[n].vars,
                a,
            ).value == axis_entry(listed_params(objects, (post.sys_names@[n])@), a)->Some_0,
        forall|n: int, a: VariableName|
            0 <= n < post.sys_objects@.len() ==> (#[trigger] axis_var(
                post.sys_objects@[n].vars,
                a,
            )).index == 0,
{
    reveal(equality_request_applied);
    reveal(state_extends);
    assert forall|n: int, a: VariableName|
        0 <= n < post.sys_names@.len() && !lock_addresses(
            reqs.subrange(0, i + 1),
            (post.sys_names@[n])@,
            a,
        ) implies !(#[trigger] axis_var(post.sys_objects@[n].vars, a)).locked && axis_var(
        post.sys_objects@[n].vars,
        a,
    ).value == axis_var(post.sys_objects@[n].vars, a).initial_value && axis_var(
        post.sys_objects@[n].vars,
        a,
    ).value == axis_entry(listed_params(objects, (post.sys_names@[n])@), a)->Some_0 by {
        lemma_lock_addresses_step(reqs, i, (post.sys_names@[n])@, a);
        if n < pre.sys_names@.len() {
            assert(equality_var_step_ok(
                axis_var(post.sys_objects@[n].vars, a),
                axis_var(pre.sys_objects@[n].vars, a),
                (pre.sys_names@[n])@,
                o1,
                o2,
                params,
                a,
            ));
        } else {
            assert(equality_var_step_ok(
                axis_var(post.sys_objects@[n].vars, a),
                fresh_listed_var(objects, (post.sys_names@[n])@, a),
                (post.sys_names@[n])@,
                o1,
                o2,
                params,
                a,
            ));
        }
    }
    assert forall|n: int, a: VariableName| 0 <= n < post.sys_objects@.len() implies (
    #[trigger] axis_var(post.sys_objects@[n].vars, a)).index == 0 by {
        if n < pre.sys_objects@.len() {
            assert(equality_var_step_ok(
                axis_var(post.sys_objects@[n].vars, a),
                axis_var(pre.sys_objects@[n].vars, a),
                (pre.sys_names@[n])@,
                o1,
                o2,
                params,
                a,
            ));
        } else {
            assert(equality_var_step_ok(
                axis_var(post.sys_objects@[n].vars, a),
                fresh_listed_var(objects, (post.sys_names@[n])@, a),
                (post.sys_names@[n])@,
                o1,
                o2,
                params,
                a,
            ));
        }
    }
}

/// Carries the build-loop facts across one applied equality request.
#[verifier::rlimit(100)]
proof fn reestablish_after_equality<S>(
    post: System<S>,
    pre: System<S>,
    objects: Seq<(String, AxisValues<S>)>,
    reqs: Seq<ConstraintRequest<S>>,
    i: int,
    o1: Seq<char>,
    o2: Seq<char>,
    params: AxisValues<S>,
)
    requires
        0 <= i < reqs.len(),
        (reqs[i] matches ConstraintRequest::Equality { object1: r1, object2: r2, parameters: rp }
            && r1@ == o1 && r2@ == o2 && rp == params),
        build_invariant(pre, objects, reqs, i),
        equality_request_applied(post, pre, objects, o1, o2, params),
        post.wf(),
        state_extends(post, pre),
        post.constraints == pre.constraints,
        has_name(post, o1),
        has_name(post, o2),
        forall|n: int|
            pre.sys_names@.len() <= n < post.sys_names@.len() ==> (#[trigger] post.sys_names@[n])@
                == o1 || (post.sys_names@[n])@ == o2,
    ensures
        build_invariant(post, objects, reqs, i + 1),
{
    lemma_applied_prefix(post, pre, reqs, i);
    lemma_equality_own_state(post, pre, objects, reqs, i, o1, o2, params);
    lemma_correspondence_unchanged(post, pre, reqs, i);
    lemma_equality_vars(post, pre, objects, reqs, i, o1, o2, params);
}

/// An equality request's own state holds right after its step.
#[verifier::rlimit(100)]
proof fn lemma_equality_own_state<S>(
    post: System<S>,
    pre: System<S>,
    objects: Seq<(String, AxisValues<S>)>,
    reqs: Seq<ConstraintRequest<S>>,
    i: int,
    o1: Seq<char>,
    o2: Seq<char>,
    params: AxisValues<S>,
)
    requires
        0 <= i < reqs.len(),
        (reqs[i] matches ConstraintRequest::Equality { object1: r1, object2: r2, parameters: rp }
            && r1@ == o1 && r2@ == o2 && rp == params),
        equality_request_applied(post, pre, objects, o1, o2, params),
    ensures
        req_state_applied(post, reqs[i]),
{
    reveal(equality_request_applied);
    reveal(req_state_applied);
    reveal(state_extends);
    let n1 = choose|n: int|
        0 <= n < post.sys_names@.len() && (#[trigger] post.sys_names@[n])@ == o1;
    assert forall|a: VariableName| axis_present(params, a) implies axis_var(
        post.sys_objects@[n1].vars,
        a,
    ).enabled by {
        if n1 < pre.sys_names@.len() {
            assert(equality_var_step_ok(
                axis_var(post.sys_objects@[n1].vars, a),
                axis_var(pre.sys_objects@[n1].vars, a),
                (pre.sys_names@[n1])@,
                o1,
                o2,
                params,
                a,
            ));
        } else {
            assert(equality_var_step_ok(
                axis_var(post.sys_objects@[n1].vars, a),
                fresh_listed_var(objects, (post.sys_names@[n1])@, a),
                (post.sys_names@[n1])@,
                o1,
                o2,
                params,
                a,
            ));
        }
    }
    assert(post.sys_objects@[n1].v_enable && post.sys_objects@[n1].q_enable);
    let n2 = choose|n: int|
        0 <= n < post.sys_names@.len() && (#[trigger] post.sys_names@[n])@ == o2;
    assert forall|a: VariableName| axis_present(params, a) implies axis_var(
        post.sys_objects@[n2].vars,
        a,
    ).enabled && axis_var(post.sys_objects@[n2].vars, a).equal.is_some() by {
        if n2 < pre.sys_names@.len() {
            assert(equality_var_step_ok(
                axis_var(post.sys_objects@[n2].vars, a),
                axis_var(pre.sys_objects@[n2].vars, a),
                (pre.sys_names@[n2])@,
                o1,
                o2,
                params,
                a,
            ));
        } else {
            assert(equality_var_step_ok(
                axis_var(post.sys_objects@[n2].vars, a),
                fresh_listed_var(objects, (post.sys_names@[n2])@, a),
                (post.sys_names@[n2])@,
                o1,
                o2,
                params,
                a,
            ));
        }
    }
    assert(post.sys_objects@[n2].v_enable && post.sys_objects@[n2].q_enable);
    assert(req_state_applied(post, reqs[i]));
}

/// The listed placement of a listed name is one of the host's entries.
proof fn lemma_listed_params_is_entry<S>(objects: Seq<(String, AxisValues<S>)>, name: Seq<char>)
    requires
        object_listed(objects, name),
    ensures
        exists|k: int|
            0 <= k < objects.len() && (#[trigger] objects[k]).1 == listed_params(objects, name),
    decreases objects.len(),
{
    if (objects[0].0)@ == name {
        assert(objects[0].1 == listed_params(objects, name));
    } else {
        let w = choose|i: int| 0 <= i < objects.len() && (#[trigger] objects[i].0)@ == name;
        assert((objects.drop_first()[w - 1].0)@ == name);
        lemma_listed_params_is_entry(objects.drop_first(), name);
        let k = choose|k: int|
            0 <= k < objects.drop_first().len() && (#[trigger] objects.drop_first()[k]).1
                == listed_params(objects.drop_first(), name);
        assert(objects[k + 1].1 == listed_params(objects, name));
    }
}

/// Builds the constraint system from the host's input: the objects with
/// their placements, and the constraint requests.
///
/// Objects are registered on first use, each with the placement values the
/// host lists for its name; a request naming an object that is not in the
/// list, a placement lacking one of the six required axis values, or a
/// two-body request naming the same body twice aborts the build with an
/// error identifying the offending name or axis, and nothing is retried.
/// On success the system holds the named objects with their listed
/// placement values, one fix-base constraint per fix-base request in
/// request order, and the lock and equality state every request asked
/// for; on a list of well-formed requests over complete placements the
/// build always succeeds.
#[verifier::rlimit(100)]
pub fn build_constraints<S: DualAlgebra>(
    objects: &Vec<(String, AxisValues<S>)>,
    requests: &Vec<ConstraintRequest<S>>,
) -> (r: Result<System<S>, BuildError>)
    ensures
        // On success the system is exactly the requests' work: every
        // request's registration, enabling, locking and aliasing state is
        // in place, the constraints
        // correspond one-to-one and in order to the fix-base requests, an
        // axis no lock addresses holds its listed placement value unlocked,
        // and no solver index has been touched yet.
        r matches Ok(s) ==> build_invariant(s, objects@, requests@, requests@.len() as int),
        // Each error identifies its input.
        r matches Err(BuildError::MissingObject { name }) ==> !object_listed(objects@, name@) && (
        exists|p: int| 0 <= p < requests@.len() && req_mentions(#[trigger] requests@[p], name@)),
        r matches Err(BuildError::MissingAxis { object, axis }) ==> object_listed(
            objects@,
            object@,
        ) && first_missing_axis(listed_params(objects@, object@)) == Some(axis) && (exists|p: int|
            0 <= p < requests@.len() && req_mentions(#[trigger] requests@[p], object@)),
        r matches Err(BuildError::SelfReference { name }) ==> exists|p: int|
            0 <= p < requests@.len() && req_self_paired(#[trigger] requests@[p], name@),
        // On well-formed requests over complete placements the build is
        // owed to succeed.
        (forall|j: int|
            0 <= j < requests@.len() ==> request_well_formed(
                objects@,
                #[trigger] requests@[j],
            )) && (forall|i: int|
            0 <= i < objects@.len() ==> first_missing_axis(
                (#[trigger] objects@[i]).1,
            ) is None) ==> r is Ok,
{
    let ghost reqs = requests@;
    let mut system = System::<S>::new();
    let mut i: usize = 0;
    while i < requests.len()
        invariant
            i <= reqs.len(),
            reqs == requests@,
            build_invariant(system, objects@, reqs, i as int),
        decreases reqs.len() - i,
    {
        let ghost pre = system;
        match &requests[i] {
            ConstraintRequest::FixBase { object, reference, parameters } => {
                proof {
                    assert(reqs[i as int] matches ConstraintRequest::FixBase {
                        object: ro,
                        reference: rr,
                        parameters: rp,
                    } && ro == *object && rr == *reference && rp == *parameters);
                }
                match apply_fixbase_request(&mut system, objects, object, reference, parameters) {
                    Ok(()) => (),
                    Err(e) => {
                        proof {
                            assert(req_mentions(reqs[i as int], object@));
                            assert(req_mentions(reqs[i as int], reference@));
                            if object@ == reference@ {
                                assert(req_self_paired(reqs[i as int], object@));
                            }
                            match &e {
                                BuildError::MissingAxis { object: en, axis: ax } => {
                                    if object_listed(objects@, en@) {
                                        lemma_listed_params_is_entry(objects@, en@);
                                    }
                                },
                                _ => (),
                            }
                        }
                        return Err(e);
                    },
                }
                proof {
                    lemma_count_fixbase_step(reqs, i as int);
                    reestablish_after_fixbase(
                        system,
                        pre,
                        objects@,
                        reqs,
                        i as int,
                        object@,
                        reference@,
                        *parameters,
                    );
                }
            },
            ConstraintRequest::Lock { object, parameters } => {
                proof {
                    assert(reqs[i as int] matches ConstraintRequest::Lock {
                        object: ro,
                        parameters: rp,
                    } && ro == *object && rp == *parameters);
                }
                match apply_lock_request(&mut system, objects, object, parameters) {
                    Ok(()) => (),
                    Err(e) => {
                        proof {
                            assert(req_mentions(reqs[i as int], object@));
                            match &e {
                                BuildError::MissingAxis { object: en, axis: ax } => {
                                    if object_listed(objects@, en@) {
                                        lemma_listed_params_is_entry(objects@, en@);
                                    }
                                },
                                _ => (),
                            }
                        }
                        return Err(e);
                    },
                }
                proof {
                    lemma_count_fixbase_step(reqs, i as int);
                    reestablish_after_lock(
                        system,
                        pre,
                        objects@,
                        reqs,
                        i as int,
                        object@,
                        *parameters,
                    );
                }
            },
            ConstraintRequest::Equality { object1, object2, parameters } => {
                proof {
                    assert(reqs[i as int] matches ConstraintRequest::Equality {
                        object1: r1,
                        object2: r2,
                        parameters: rp,
                    } && r1 == *object1 && r2 == *object2 && rp == *parameters);
                }
                match apply_equality_request(&mut system, objects, object1, object2, parameters) {
                    Ok(()) => (),
                    Err(e) => {
                        proof {
                            assert(req_mentions(reqs[i as int], object1@));
                            assert(req_mentions(reqs[i as int], object2@));
                            if object1@ == object2@ {
                                assert(req_self_paired(reqs[i as int], object1@));
                            }
                            match &e {
                                BuildError::MissingAxis { object: en, axis: ax } => {
                                    if object_listed(objects@, en@) {
                                        lemma_listed_params_is_entry(objects@, en@);
                                    }
                                },
                                _ => (),
                            }
                        }
                        return Err(e);
                    },
                }
                proof {
                    lemma_count_fixbase_step(reqs, i as int);
                    reestablish_after_equality(
                        system,
                        pre,
                        objects@,
                        reqs,
                        i as int,
                        object1@,
                        object2@,
                        *parameters,
                    );
                }
            },
        }
        i = i + 1;
    }
    proof {
        assert(reqs.subrange(0, reqs.len() as int) =~= reqs);
    }
    Ok(system)
}
} // verus!
