//! The constraint system: variables, objects, solver-index assignment and the
//! objective/gradient/Hessian assembly consumed by an external optimizer.

use vstd::prelude::*;

use crate::constraints::constraint_type::ConstraintType;
use crate::geometry::quaternion::quaternion_refreshed;
use crate::geometry::vector::vector_refreshed;
use crate::number_system::DualAlgebra;
use crate::system_object::{
    axis_var, lemma_set_axis_frame, lemma_variable_order_ord, spec_set_axis, str_eq, variable_at,
    variable_ord, variable_order, SystemObject, VariableName,
};

verus! {

/// One scalar degree of freedom of an object's placement.
///
/// A variable participates in the optimization only while it is `enabled` and
/// not `locked`; a locked variable keeps its `initial_value` for the whole
/// solve, and a disabled one is a plain constant input.  `equal` marks the
/// variable as an alias of another object's variable: its solver index and
/// initial value are defined to be those of the target.
#[derive(Clone, Copy, Debug)]
pub struct Variable<S> {
    /// Position in the compacted solver vector; meaningful only for enabled,
    /// unlocked variables after the index-assignment pass.
    pub index: usize,
    /// Value of the variable during the iteration process.
    pub value: S,
    /// Value of the variable at the start of the iteration process.
    pub initial_value: S,
    /// While locked, the variable keeps its initial value for the whole solve
    /// even though it stays known to the constraints.
    pub locked: bool,
    /// Whether the variable participates in the optimization at all.
    pub enabled: bool,
    /// The object index and variable name of the alias target, if this
    /// variable is defined to equal another one.
    pub equal: Option<(usize, VariableName)>,
}

/// An association from axis name to numeric value, the form in which both
/// object placements and constraint parameters arrive from the host.
///
/// Presence of an axis means "this axis is addressed by this instance";
/// absence means the instance leaves the axis alone.
#[derive(Clone, Copy, Debug)]
pub struct AxisValues<S> {
    pub x: Option<S>,
    pub y: Option<S>,
    pub z: Option<S>,
    pub phi: Option<S>,
    pub theta: Option<S>,
    pub psi: Option<S>,
}

/// The entry of an axis-value association for one axis.
pub open spec fn axis_entry<S>(p: AxisValues<S>, a: VariableName) -> Option<S> {
    match a {
        VariableName::x => p.x,
        VariableName::y => p.y,
        VariableName::z => p.z,
        VariableName::phi => p.phi,
        VariableName::theta => p.theta,
        VariableName::psi => p.psi,
    }
}

/// Whether an axis-value association addresses the given axis.
pub open spec fn axis_present<S>(p: AxisValues<S>, a: VariableName) -> bool {
    axis_entry(p, a).is_some()
}

impl<S: Copy> AxisValues<S> {
    /// The empty association: no axis addressed.
    pub fn new() -> (p: AxisValues<S>)
        ensures
            forall|a: VariableName| !axis_present(p, a),
    {
        AxisValues { x: None, y: None, z: None, phi: None, theta: None, psi: None }
    }

    /// The entry for one axis.
    pub fn get(&self, a: VariableName) -> (r: Option<S>)
        ensures
            r == axis_entry(*self, a),
    {
        match a {
            VariableName::x => self.x,
            VariableName::y => self.y,
            VariableName::z => self.z,
            VariableName::phi => self.phi,
            VariableName::theta => self.theta,
            VariableName::psi => self.psi,
        }
    }

    /// Sets the entry for one axis.
    pub fn set(&mut self, a: VariableName, v: S)
        ensures
            axis_entry(*final(self), a) == Some(v),
            forall|b: VariableName| b != a ==> axis_entry(*final(self), b) == axis_entry(
                *old(self),
                b,
            ),
    {
        match a {
            VariableName::x => self.x = Some(v),
            VariableName::y => self.y = Some(v),
            VariableName::z => self.z = Some(v),
            VariableName::phi => self.phi = Some(v),
            VariableName::theta => self.theta = Some(v),
            VariableName::psi => self.psi = Some(v),
        }
    }
}

/// A variable that contributes no sensitivities: the derivative caches treat
/// it as a numeric constant at its current value.
pub open spec fn is_constant<S>(v: Variable<S>) -> bool {
    v.locked || !v.enabled
}

/// A variable the optimizer may move: enabled and not locked.
pub open spec fn is_free<S>(v: Variable<S>) -> bool {
    v.enabled && !v.locked
}

/// A variable that receives its own solver index: free and not an alias.
pub open spec fn is_head<S>(v: Variable<S>) -> bool {
    is_free(v) && v.equal.is_none()
}

impl<S: DualAlgebra> Variable<S> {
    /// A fresh variable: disabled, unlocked, not aliased, with the supplied
    /// algebra's zero as its value.
    pub fn new() -> (v: Variable<S>)
        ensures
            v.index == 0,
            !v.locked,
            !v.enabled,
            v.equal.is_none(),
            v.value == v.initial_value,
    {
        let zero = S::zero();
        Variable {
            index: 0,
            value: zero,
            initial_value: zero,
            locked: false,
            enabled: false,
            equal: None,
        }
    }
}


/// A configuration error detected while building the system.
///
/// Building fails fast: the error names the missing object or axis, and the
/// system is left as it was before the failing step.
#[derive(Clone, Debug, PartialEq, Eq)]
pub enum BuildError {
    /// A constraint names an object that was never supplied.
    MissingObject { name: String },
    /// An object's placement lacks the value for a required axis: all six
    /// are required.
    MissingAxis { object: String, axis: VariableName },
    /// A constraint that relates two bodies names the same object for both
    /// of its roles; a body cannot be constrained against itself.
    SelfReference { name: String },
}

/// The first of the six axes that an axis-value association leaves out, in
/// the fixed order, if any.
pub open spec fn first_missing_axis<S>(p: AxisValues<S>) -> Option<VariableName> {
    if p.x.is_none() {
        Some(VariableName::x)
    } else if p.y.is_none() {
        Some(VariableName::y)
    } else if p.z.is_none() {
        Some(VariableName::z)
    } else if p.phi.is_none() {
        Some(VariableName::phi)
    } else if p.theta.is_none() {
        Some(VariableName::theta)
    } else if p.psi.is_none() {
        Some(VariableName::psi)
    } else {
        None
    }
}

/// The entire constraint system: its objects, the constraints over them, and
/// the association from object name to object index.
pub struct System<S> {
    /// All constraints in the system; evaluating the objective means
    /// evaluating every one of them.
    pub constraints: Vec<ConstraintType<S>>,
    /// All objects in the system.
    pub sys_objects: Vec<SystemObject<S>>,
    /// The objects' names; the object called `sys_names[i]` is
    /// `sys_objects[i]`.
    pub sys_names: Vec<String>,
    /// The algebra's additive identity, used to clear the global buffers.
    pub zero: S,
}

/// Whether a name-sequence holds pairwise distinct names.
pub open spec fn names_distinct(names: Seq<String>) -> bool {
    forall|i: int, j: int| 0 <= i < j < names.len() ==> names[i]@ != names[j]@
}

impl<S> System<S> {
    /// The system's structural invariant: one name per object, all names
    /// distinct, and every constraint well-shaped with its object indices in
    /// range.
    pub open spec fn wf(self) -> bool {
        &&& self.sys_names@.len() == self.sys_objects@.len()
        &&& names_distinct(self.sys_names@)
        &&& forall|c: int|
            0 <= c < self.constraints@.len() ==> (#[trigger] self.constraints@[c]).wf()
                && self.constraints@[c].objects_in_range(self.sys_objects@.len() as int)
    }
}

/// Whether the system already holds an object registered under the name.
pub open spec fn has_name<S>(s: System<S>, name: Seq<char>) -> bool {
    exists|i: int| 0 <= i < s.sys_names@.len() && (#[trigger] s.sys_names@[i])@ == name
}

/// A freshly registered object: each variable disabled, unlocked and
/// unaliased, holding the axis value from the placement parameters, and both
/// caches off.
pub open spec fn object_initialized<S>(o: SystemObject<S>, p: AxisValues<S>) -> bool {
    &&& forall|a: VariableName|
        #[trigger] axis_var(o.vars, a) == (Variable {
            index: 0,
            value: axis_entry(p, a)->Some_0,
            initial_value: axis_entry(p, a)->Some_0,
            locked: false,
            enabled: false,
            equal: None,
        })
    &&& !o.q_enable
    &&& !o.v_enable
}

/// The effect of registering one new object: everything as before plus one
/// appended object under the new name.
pub open spec fn appended_object<S>(
    post: System<S>,
    pre: System<S>,
    name: Seq<char>,
    p: AxisValues<S>,
) -> bool {
    &&& post.sys_objects@.len() == pre.sys_objects@.len() + 1
    &&& post.sys_names@.len() == pre.sys_names@.len() + 1
    &&& post.sys_objects@.subrange(0, pre.sys_objects@.len() as int) == pre.sys_objects@
    &&& post.sys_names@.subrange(0, pre.sys_names@.len() as int) == pre.sys_names@
    &&& (post.sys_names@[pre.sys_names@.len() as int])@ == name
    &&& object_initialized(post.sys_objects@[pre.sys_objects@.len() as int], p)
}

impl<S: DualAlgebra> System<S> {
    /// An empty system.
    pub fn new() -> (s: System<S>)
        ensures
            s.wf(),
            s.constraints@.len() == 0,
            s.sys_objects@.len() == 0,
            s.sys_names@.len() == 0,
    {
        System {
            constraints: Vec::new(),
            sys_objects: Vec::new(),
            sys_names: Vec::new(),
            zero: S::zero(),
        }
    }

    /// The index of the object registered under a name, if any.
    pub fn get_object_index(&self, name: &str) -> (r: Option<usize>)
        ensures
            match r {
                Some(i) => i < self.sys_names@.len() && self.sys_names@[i as int]@ == name@,
                None => forall|i: int|
                    0 <= i < self.sys_names@.len() ==> (#[trigger] self.sys_names@[i])@ != name@,
            },
    {
        let mut i: usize = 0;
        while i < self.sys_names.len()
            invariant
                i <= self.sys_names@.len(),
                forall|j: int| 0 <= j < i ==> (#[trigger] self.sys_names@[j])@ != name@,
            decreases self.sys_names@.len() - i,
        {
            if str_eq(self.sys_names[i].as_str(), name) {
                return Some(i);
            }
            i = i + 1;
        }
        None
    }

    /// Registers a new object under a name, with its placement values.
    ///
    /// All six axis values are required; a missing one is a configuration
    /// error that leaves the system unchanged.  Registering a name that
    /// already exists does nothing by design.  A fresh object's variables
    /// start disabled and unlocked, holding the given values.
    pub fn add_object(&mut self, new_object_name: &str, object_params: &AxisValues<S>) -> (r:
        Result<(), BuildError>)
        requires
            old(self).wf(),
        ensures
            final(self).wf(),
            final(self).constraints == old(self).constraints,
            final(self).zero == old(self).zero,
            // An existing name: nothing happens.
            has_name(*old(self), new_object_name@) ==> *final(self) == *old(self) && r is Ok,
            // A new name with complete parameters: one object is appended.
            !has_name(*old(self), new_object_name@) && first_missing_axis(*object_params)
                is None ==> r is Ok && appended_object(
                *final(self),
                *old(self),
                new_object_name@,
                *object_params,
            ),
            // A new name with a missing axis: the error names it and the
            // system stays as it was.
            !has_name(*old(self), new_object_name@) && first_missing_axis(*object_params)
                is Some ==> *final(self) == *old(self) && (r matches Err(
                BuildError::MissingAxis { object, axis },
            ) && object@ == new_object_name@ && Some(axis) == first_missing_axis(
                *object_params,
            )),
    {
        match self.get_object_index(new_object_name) {
            Some(_) => Ok(()),
            None => {
                let x = match object_params.x {
                    Some(v) => v,
                    None => {
                        return Err(
                            BuildError::MissingAxis {
                                object: new_object_name.to_owned(),
                                axis: VariableName::x,
                            },
                        );
                    },
                };
                let y = match object_params.y {
                    Some(v) => v,
                    None => {
                        return Err(
                            BuildError::MissingAxis {
                                object: new_object_name.to_owned(),
                                axis: VariableName::y,
                            },
                        );
                    },
                };
                let z = match object_params.z {
                    Some(v) => v,
                    None => {
                        return Err(
                            BuildError::MissingAxis {
                                object: new_object_name.to_owned(),
                                axis: VariableName::z,
                            },
                        );
                    },
                };
                let phi = match object_params.phi {
                    Some(v) => v,
                    None => {
                        return Err(
                            BuildError::MissingAxis {
                                object: new_object_name.to_owned(),
                                axis: VariableName::phi,
                            },
                        );
                    },
                };
                let theta = match object_params.theta {
                    Some(v) => v,
                    None => {
                        return Err(
                            BuildError::MissingAxis {
                                object: new_object_name.to_owned(),
                                axis: VariableName::theta,
                            },
                        );
                    },
                };
                let psi = match object_params.psi {
                    Some(v) => v,
                    None => {
                        return Err(
                            BuildError::MissingAxis {
                                object: new_object_name.to_owned(),
                                axis: VariableName::psi,
                            },
                        );
                    },
                };
                let mut new_object = SystemObject::new();
                proof {
                    let o0 = new_object;
                    assert(axis_var(o0.vars, VariableName::x) == o0.vars.x);
                    assert(axis_var(o0.vars, VariableName::y) == o0.vars.y);
                    assert(axis_var(o0.vars, VariableName::z) == o0.vars.z);
                    assert(axis_var(o0.vars, VariableName::phi) == o0.vars.phi);
                    assert(axis_var(o0.vars, VariableName::theta) == o0.vars.theta);
                    assert(axis_var(o0.vars, VariableName::psi) == o0.vars.psi);
                }
                new_object.vars.x.value = x;
                new_object.vars.x.initial_value = x;
                new_object.vars.y.value = y;
                new_object.vars.y.initial_value = y;
                new_object.vars.z.value = z;
                new_object.vars.z.initial_value = z;
                new_object.vars.phi.value = phi;
                new_object.vars.phi.initial_value = phi;
                new_object.vars.theta.value = theta;
                new_object.vars.theta.initial_value = theta;
                new_object.vars.psi.value = psi;
                new_object.vars.psi.initial_value = psi;
                proof {
                    assert(axis_var(new_object.vars, VariableName::x) == (Variable {
                        index: 0,
                        value: x,
                        initial_value: x,
                        locked: false,
                        enabled: false,
                        equal: None,
                    }));
                    assert(axis_var(new_object.vars, VariableName::y) == (Variable {
                        index: 0,
                        value: y,
                        initial_value: y,
                        locked: false,
                        enabled: false,
                        equal: None,
                    }));
                    assert(axis_var(new_object.vars, VariableName::z) == (Variable {
                        index: 0,
                        value: z,
                        initial_value: z,
                        locked: false,
                        enabled: false,
                        equal: None,
                    }));
                    assert(axis_var(new_object.vars, VariableName::phi) == (Variable {
                        index: 0,
                        value: phi,
                        initial_value: phi,
                        locked: false,
                        enabled: false,
                        equal: None,
                    }));
                    assert(axis_var(new_object.vars, VariableName::theta) == (Variable {
                        index: 0,
                        value: theta,
                        initial_value: theta,
                        locked: false,
                        enabled: false,
                        equal: None,
                    }));
                    assert(axis_var(new_object.vars, VariableName::psi) == (Variable {
                        index: 0,
                        value: psi,
                        initial_value: psi,
                        locked: false,
                        enabled: false,
                        equal: None,
                    }));
                    assert(object_initialized(new_object, *object_params));
                }
                let ghost pre_objects = self.sys_objects@;
                let ghost pre_names = self.sys_names@;
                self.sys_objects.push(new_object);
                self.sys_names.push(new_object_name.to_owned());
                proof {
                    assert(self.sys_objects@.subrange(0, pre_objects.len() as int)
                        =~= pre_objects);
                    assert(self.sys_names@.subrange(0, pre_names.len() as int) =~= pre_names);
                }
                Ok(())
            },
        }
    }
}

/// The variable of object `o` for the axis at position `a` of the fixed
/// ordering: the system's variables form the grid (object, axis).
pub open spec fn obj_var<S>(objs: Seq<SystemObject<S>>, o: int, a: int) -> Variable<S> {
    axis_var(objs[o].vars, variable_order(a))
}

/// How many index-receiving (head) variables precede the grid position
/// `(o, a)` in the deterministic assignment order: objects in registration
/// order, axes in the fixed order within each object.
pub open spec fn rank_to<S>(objs: Seq<SystemObject<S>>, o: int, a: int) -> int
    decreases o, a,
{
    if o <= 0 && a <= 0 {
        0
    } else if a <= 0 {
        rank_to(objs, o - 1, 6)
    } else {
        rank_to(objs, o, a - 1) + (if is_head(obj_var(objs, o, a - 1)) {
            1int
        } else {
            0
        })
    }
}

/// The number of solver variables: heads over the whole grid.
pub open spec fn solver_size<S>(objs: Seq<SystemObject<S>>) -> int {
    rank_to(objs, objs.len() as int, 0)
}

/// The grid position of an alias target.
pub open spec fn target_of<S>(v: Variable<S>) -> (int, int) {
    ((v.equal->Some_0.0) as int, variable_ord(v.equal->Some_0.1))
}

/// Aliases are flat: every alias target exists and is itself no alias.  The
/// front-end that emits equalities must keep chains at depth one; the
/// index-assignment pass relies on it.
pub open spec fn flat_aliases<S>(objs: Seq<SystemObject<S>>) -> bool {
    forall|o: int, a: int|
        0 <= o < objs.len() && 0 <= a < 6 && (#[trigger] obj_var(objs, o, a)).equal.is_some()
            ==> 0 <= target_of(obj_var(objs, o, a)).0 < objs.len() && obj_var(
            objs,
            target_of(obj_var(objs, o, a)).0,
            target_of(obj_var(objs, o, a)).1,
        ).equal.is_none()
}

/// The state the index-assignment pass establishes: every head variable
/// carries its rank as solver index, and every alias carries its target's
/// index and initial value.
pub open spec fn well_indexed<S>(objs: Seq<SystemObject<S>>) -> bool {
    &&& forall|o: int, a: int|
        0 <= o < objs.len() && 0 <= a < 6 && is_head(#[trigger] obj_var(objs, o, a))
            ==> obj_var(objs, o, a).index == rank_to(objs, o, a)
    &&& forall|o: int, a: int|
        0 <= o < objs.len() && 0 <= a < 6 && (#[trigger] obj_var(objs, o, a)).equal.is_some()
            ==> obj_var(objs, o, a).index == obj_var(
            objs,
            target_of(obj_var(objs, o, a)).0,
            target_of(obj_var(objs, o, a)).1,
        ).index && obj_var(objs, o, a).initial_value == obj_var(
            objs,
            target_of(obj_var(objs, o, a)).0,
            target_of(obj_var(objs, o, a)).1,
        ).initial_value
}

/// The rank never exceeds the number of positions before `(o, a)`.
pub proof fn lemma_rank_le_positions<S>(objs: Seq<SystemObject<S>>, o: int, a: int)
    requires
        0 <= o,
        0 <= a <= 6,
    ensures
        0 <= rank_to(objs, o, a) <= 6 * o + a,
    decreases o, a,
{
    if o == 0 && a == 0 {
    } else if a == 0 {
        lemma_rank_le_positions(objs, o - 1, 6);
    } else {
        lemma_rank_le_positions(objs, o, a - 1);
    }
}

/// The rank grows along the assignment order.
pub proof fn lemma_rank_monotone<S>(objs: Seq<SystemObject<S>>, o1: int, a1: int, o2: int, a2: int)
    requires
        0 <= o1,
        0 <= a1 <= 6,
        0 <= a2 <= 6,
        o1 < o2 || (o1 == o2 && a1 <= a2),
    ensures
        rank_to(objs, o1, a1) <= rank_to(objs, o2, a2),
    decreases o2, a2,
{
    if o1 == o2 && a1 == a2 {
    } else if a2 == 0 {
        lemma_rank_monotone(objs, o1, a1, o2 - 1, 6);
    } else {
        lemma_rank_monotone(objs, o1, a1, o2, a2 - 1);
    }
}

/// A head strictly below the end of the grid keeps its rank below the
/// solver size: its index is a valid cell of the solver vector.
pub proof fn lemma_head_rank_in_range<S>(objs: Seq<SystemObject<S>>, o: int, a: int)
    requires
        0 <= o < objs.len(),
        0 <= a < 6,
        is_head(obj_var(objs, o, a)),
    ensures
        0 <= rank_to(objs, o, a) < solver_size(objs),
    decreases objs.len() - o,
{
    lemma_rank_le_positions(objs, o, a);
    assert(rank_to(objs, o, a + 1) == rank_to(objs, o, a) + 1);
    lemma_rank_monotone(objs, o, a + 1, o + 1, 0);
    lemma_rank_monotone(objs, o + 1, 0, objs.len() as int, 0);
}

/// The rank depends only on the head pattern: two object sequences whose
/// variables agree on enabled, locked and alias state rank alike.
pub proof fn lemma_rank_same_heads<S>(
    objs1: Seq<SystemObject<S>>,
    objs2: Seq<SystemObject<S>>,
    o: int,
    a: int,
)
    requires
        objs1.len() == objs2.len(),
        0 <= o <= objs1.len(),
        0 <= a <= 6,
        o < objs1.len() || a == 0,
        forall|o2: int, a2: int|
            0 <= o2 < objs1.len() && 0 <= a2 < 6 ==> is_head(
                #[trigger] obj_var(objs1, o2, a2),
            ) == is_head(#[trigger] obj_var(objs2, o2, a2)),
    ensures
        rank_to(objs1, o, a) == rank_to(objs2, o, a),
    decreases o, a,
{
    if o == 0 && a == 0 {
    } else if a == 0 {
        lemma_rank_same_heads(objs1, objs2, o - 1, 6);
    } else {
        lemma_rank_same_heads(objs1, objs2, o, a - 1);
    }
}

impl<S: DualAlgebra> System<S> {
    /// First pass of the index assignment: hands out dense indices to the
    /// head variables (enabled, unlocked, unaliased), in the deterministic
    /// order - objects as registered, axes in the fixed order.  Every other
    /// variable, and everything else in the system, stays as it was.
    #[verifier::rlimit(100)]
    fn assign_head_indices(&mut self)
        requires
            old(self).sys_objects@.len() * 6 <= usize::MAX,
        ensures
            final(self).constraints == old(self).constraints,
            final(self).sys_names == old(self).sys_names,
            final(self).zero == old(self).zero,
            final(self).sys_objects@.len() == old(self).sys_objects@.len(),
            forall|ob: int|
                0 <= ob < old(self).sys_objects@.len() ==> same_but_indexing(
                    #[trigger] final(self).sys_objects@[ob],
                    old(self).sys_objects@[ob],
                ),
            forall|o: int, a: int|
                0 <= o < old(self).sys_objects@.len() && 0 <= a < 6 && is_head(
                    #[trigger] obj_var(old(self).sys_objects@, o, a),
                ) ==> obj_var(final(self).sys_objects@, o, a) == (Variable {
                    index: rank_to(old(self).sys_objects@, o, a) as usize,
                    ..obj_var(old(self).sys_objects@, o, a)
                }),
            forall|o: int, a: int|
                0 <= o < old(self).sys_objects@.len() && 0 <= a < 6 && !is_head(
                    #[trigger] obj_var(old(self).sys_objects@, o, a),
                ) ==> obj_var(final(self).sys_objects@, o, a) == obj_var(
                    old(self).sys_objects@,
                    o,
                    a,
                ),
    {
        let ghost orig = self.sys_objects@;
        let n = self.sys_objects.len();
        let mut i: usize = 0;
        let mut o: usize = 0;
        while o < n
            invariant
                o <= n,
                n == self.sys_objects@.len(),
                n == orig.len(),
                n * 6 <= usize::MAX,
                i == rank_to(orig, o as int, 0),
                self.constraints == old(self).constraints,
                self.sys_names == old(self).sys_names,
                self.zero == old(self).zero,
                forall|ob: int|
                    0 <= ob < n ==> same_but_indexing(
                        #[trigger] self.sys_objects@[ob],
                        orig[ob],
                    ),
                forall|o2: int, a2: int|
                    0 <= o2 < n && 0 <= a2 < 6 && (o2 >= o) ==> obj_var(
                        self.sys_objects@,
                        o2,
                        a2,
                    ) == obj_var(orig, o2, a2),
                forall|o2: int, a2: int|
                    0 <= o2 < o && 0 <= a2 < 6 && is_head(#[trigger] obj_var(orig, o2, a2))
                        ==> obj_var(self.sys_objects@, o2, a2) == (Variable {
                        index: rank_to(orig, o2, a2) as usize,
                        ..obj_var(orig, o2, a2)
                    }),
                forall|o2: int, a2: int|
                    0 <= o2 < o && 0 <= a2 < 6 && !is_head(#[trigger] obj_var(orig, o2, a2))
                        ==> obj_var(self.sys_objects@, o2, a2) == obj_var(orig, o2, a2),
            decreases n - o,
        {
            let mut a: usize = 0;
            while a < 6
                invariant
                    o < n,
                    a <= 6,
                    n == self.sys_objects@.len(),
                    n == orig.len(),
                    n * 6 <= usize::MAX,
                    i == rank_to(orig, o as int, a as int),
                    self.constraints == old(self).constraints,
                    self.sys_names == old(self).sys_names,
                    self.zero == old(self).zero,
                    forall|ob: int|
                        0 <= ob < n ==> same_but_indexing(
                            #[trigger] self.sys_objects@[ob],
                            orig[ob],
                        ),
                    forall|o2: int, a2: int|
                        0 <= o2 < n && 0 <= a2 < 6 && (o2 > o || (o2 == o && a2 >= a)) ==> obj_var(
                            self.sys_objects@,
                            o2,
                            a2,
                        ) == obj_var(orig, o2, a2),
                    forall|o2: int, a2: int|
                        0 <= o2 < n && 0 <= a2 < 6 && (o2 < o || (o2 == o && a2 < a)) && is_head(
                            #[trigger] obj_var(orig, o2, a2),
                        ) ==> obj_var(self.sys_objects@, o2, a2) == (Variable {
                            index: rank_to(orig, o2, a2) as usize,
                            ..obj_var(orig, o2, a2)
                        }),
                    forall|o2: int, a2: int|
                        0 <= o2 < n && 0 <= a2 < 6 && (o2 < o || (o2 == o && a2 < a)) && !is_head(
                            #[trigger] obj_var(orig, o2, a2),
                        ) ==> obj_var(self.sys_objects@, o2, a2) == obj_var(orig, o2, a2),
                decreases 6 - a,
            {
                let name = variable_at(a);
                proof {
                    lemma_rank_le_positions(orig, o as int, a as int);
                    assert(obj_var(self.sys_objects@, o as int, a as int) == obj_var(
                        orig,
                        o as int,
                        a as int,
                    ));
                }
                let ghost before = self.sys_objects@;
                let obj = &mut self.sys_objects[o];
                let variable = obj.vars.get_mut_variable(name);
                if variable.enabled && variable.equal.is_none() && !variable.locked {
                    variable.index = i;
                    i = i + 1;
                }
                proof {
                    assert(obj_var(self.sys_objects@, o as int, a as int) == (
                    if is_head(obj_var(orig, o as int, a as int)) {
                        Variable {
                            index: rank_to(orig, o as int, a as int) as usize,
                            ..obj_var(orig, o as int, a as int)
                        }
                    } else {
                        obj_var(orig, o as int, a as int)
                    }));
                    assert(forall|o2: int, a2: int|
                        0 <= o2 < n && 0 <= a2 < 6 && !(o2 == o && a2 == a) ==> obj_var(
                            self.sys_objects@,
                            o2,
                            a2,
                        ) == obj_var(before, o2, a2));
                    assert(rank_to(orig, o as int, a + 1) == rank_to(orig, o as int, a as int)
                        + (if is_head(obj_var(orig, o as int, a as int)) {
                        1int
                    } else {
                        0
                    }));
                }
                a = a + 1;
            }
            proof {
                assert(rank_to(orig, o + 1, 0) == rank_to(orig, o as int, 6));
            }
            o = o + 1;
        }
    }

    /// Second pass of the index assignment: every aliased variable picks up
    /// its target's index and initial value.  By the flatness precondition
    /// the targets are no aliases themselves, so their fields are already
    /// final; nothing but the aliased variables moves.
    #[verifier::rlimit(100)]
    fn resolve_alias_indices(&mut self)
        requires
            flat_aliases(old(self).sys_objects@),
        ensures
            final(self).constraints == old(self).constraints,
            final(self).sys_names == old(self).sys_names,
            final(self).zero == old(self).zero,
            final(self).sys_objects@.len() == old(self).sys_objects@.len(),
            forall|ob: int|
                0 <= ob < old(self).sys_objects@.len() ==> same_but_indexing(
                    #[trigger] final(self).sys_objects@[ob],
                    old(self).sys_objects@[ob],
                ),
            forall|o: int, a: int|
                0 <= o < old(self).sys_objects@.len() && 0 <= a < 6 && (#[trigger] obj_var(
                    old(self).sys_objects@,
                    o,
                    a,
                )).equal.is_none() ==> obj_var(final(self).sys_objects@, o, a) == obj_var(
                    old(self).sys_objects@,
                    o,
                    a,
                ),
            forall|o: int, a: int|
                0 <= o < old(self).sys_objects@.len() && 0 <= a < 6 && (#[trigger] obj_var(
                    old(self).sys_objects@,
                    o,
                    a,
                )).equal.is_some() ==> obj_var(final(self).sys_objects@, o, a) == (Variable {
                    index: obj_var(
                        old(self).sys_objects@,
                        target_of(obj_var(old(self).sys_objects@, o, a)).0,
                        target_of(obj_var(old(self).sys_objects@, o, a)).1,
                    ).index,
                    initial_value: obj_var(
                        old(self).sys_objects@,
                        target_of(obj_var(old(self).sys_objects@, o, a)).0,
                        target_of(obj_var(old(self).sys_objects@, o, a)).1,
                    ).initial_value,
                    ..obj_var(old(self).sys_objects@, o, a)
                }),
    {
        let ghost orig = self.sys_objects@;
        let n = self.sys_objects.len();
        let mut o2: usize = 0;
        while o2 < n
            invariant
                o2 <= n,
                n == self.sys_objects@.len(),
                n == orig.len(),
                flat_aliases(orig),
                self.constraints == old(self).constraints,
                self.sys_names == old(self).sys_names,
                self.zero == old(self).zero,
                forall|ob: int|
                    0 <= ob < n ==> same_but_indexing(
                        #[trigger] self.sys_objects@[ob],
                        orig[ob],
                    ),
                forall|ob: int, ax: int|
                    0 <= ob < n && 0 <= ax < 6 && (#[trigger] obj_var(
                        orig,
                        ob,
                        ax,
                    )).equal.is_none() ==> obj_var(self.sys_objects@, ob, ax) == obj_var(
                        orig,
                        ob,
                        ax,
                    ),
                forall|ob: int, ax: int|
                    0 <= ob < n && 0 <= ax < 6 && ob >= o2 && (#[trigger] obj_var(
                        orig,
                        ob,
                        ax,
                    )).equal.is_some() ==> obj_var(self.sys_objects@, ob, ax) == obj_var(
                        orig,
                        ob,
                        ax,
                    ),
                forall|ob: int, ax: int|
                    0 <= ob < o2 && 0 <= ax < 6 && (#[trigger] obj_var(
                        orig,
                        ob,
                        ax,
                    )).equal.is_some() ==> obj_var(self.sys_objects@, ob, ax) == (Variable {
                        index: obj_var(
                            orig,
                            target_of(obj_var(orig, ob, ax)).0,
                            target_of(obj_var(orig, ob, ax)).1,
                        ).index,
                        initial_value: obj_var(
                            orig,
                            target_of(obj_var(orig, ob, ax)).0,
                            target_of(obj_var(orig, ob, ax)).1,
                        ).initial_value,
                        ..obj_var(orig, ob, ax)
                    }),
            decreases n - o2,
        {
            let mut a: usize = 0;
            while a < 6
                invariant
                    o2 < n,
                    a <= 6,
                    n == self.sys_objects@.len(),
                    n == orig.len(),
                    flat_aliases(orig),
                    self.constraints == old(self).constraints,
                    self.sys_names == old(self).sys_names,
                    self.zero == old(self).zero,
                    forall|ob: int|
                        0 <= ob < n ==> same_but_indexing(
                            #[trigger] self.sys_objects@[ob],
                            orig[ob],
                        ),
                    forall|ob: int, ax: int|
                        0 <= ob < n && 0 <= ax < 6 && (#[trigger] obj_var(
                            orig,
                            ob,
                            ax,
                        )).equal.is_none() ==> obj_var(self.sys_objects@, ob, ax) == obj_var(
                            orig,
                            ob,
                            ax,
                        ),
                    forall|ob: int, ax: int|
                        0 <= ob < n && 0 <= ax < 6 && (ob > o2 || (ob == o2 && ax >= a)) && (
                        #[trigger] obj_var(orig, ob, ax)).equal.is_some() ==> obj_var(
                            self.sys_objects@,
                            ob,
                            ax,
                        ) == obj_var(orig, ob, ax),
                    forall|ob: int, ax: int|
                        0 <= ob < n && 0 <= ax < 6 && (ob < o2 || (ob == o2 && ax < a)) && (
                        #[trigger] obj_var(orig, ob, ax)).equal.is_some() ==> obj_var(
                            self.sys_objects@,
                            ob,
                            ax,
                        ) == (Variable {
                            index: obj_var(
                                orig,
                                target_of(obj_var(orig, ob, ax)).0,
                                target_of(obj_var(orig, ob, ax)).1,
                            ).index,
                            initial_value: obj_var(
                                orig,
                                target_of(obj_var(orig, ob, ax)).0,
                                target_of(obj_var(orig, ob, ax)).1,
                            ).initial_value,
                            ..obj_var(orig, ob, ax)
                        }),
                decreases 6 - a,
            {
                let name = variable_at(a);
                let equal = self.sys_objects[o2].vars.get_variable(name).equal;
                match equal {
                    Some((j, j_name)) => {
                        proof {
                            assert(obj_var(self.sys_objects@, o2 as int, a as int) == obj_var(
                                orig,
                                o2 as int,
                                a as int,
                            ));
                            assert(obj_var(orig, o2 as int, a as int).equal == Some((j, j_name)));
                            assert(target_of(obj_var(orig, o2 as int, a as int)) == (
                            j as int,
                            variable_ord(j_name),
                            ));
                            lemma_variable_order_ord(j_name);
                            assert(obj_var(orig, j as int, variable_ord(j_name)).equal.is_none());
                            assert(obj_var(self.sys_objects@, j as int, variable_ord(j_name))
                                == obj_var(orig, j as int, variable_ord(j_name)));
                        }
                        let target = *self.sys_objects[j].vars.get_variable(j_name);
                        let ghost before = self.sys_objects@;
                        let obj = &mut self.sys_objects[o2];
                        copy_alias_fields(obj, name, target.index, target.initial_value);
                        proof {
                            lemma_set_axis_frame(
                                before[o2 as int].vars,
                                name,
                                Variable {
                                    index: target.index,
                                    initial_value: target.initial_value,
                                    ..axis_var(before[o2 as int].vars, name)
                                },
                            );
                            assert(forall|ob: int, ax: int|
                                0 <= ob < n && 0 <= ax < 6 && !(ob == o2 && ax == a) ==> obj_var(
                                    self.sys_objects@,
                                    ob,
                                    ax,
                                ) == obj_var(before, ob, ax));
                            assert(obj_var(self.sys_objects@, o2 as int, a as int) == (Variable {
                                index: target.index,
                                initial_value: target.initial_value,
                                ..obj_var(before, o2 as int, a as int)
                            }));
                            assert(same_but_indexing(before[o2 as int], orig[o2 as int]));
                            assert forall|b: VariableName|
                                #[trigger] axis_var(self.sys_objects@[o2 as int].vars, b)
                                    == (Variable {
                                    index: axis_var(self.sys_objects@[o2 as int].vars, b).index,
                                    initial_value: axis_var(
                                        self.sys_objects@[o2 as int].vars,
                                        b,
                                    ).initial_value,
                                    ..axis_var(orig[o2 as int].vars, b)
                                }) by {
                                assert(axis_var(before[o2 as int].vars, b) == (Variable {
                                    index: axis_var(before[o2 as int].vars, b).index,
                                    initial_value: axis_var(
                                        before[o2 as int].vars,
                                        b,
                                    ).initial_value,
                                    ..axis_var(orig[o2 as int].vars, b)
                                }));
                                if b != name {
                                    assert(axis_var(self.sys_objects@[o2 as int].vars, b)
                                        == axis_var(before[o2 as int].vars, b));
                                }
                            }
                        }
                    },
                    None => (),
                }
                a = a + 1;
            }
            o2 = o2 + 1;
        }
    }

    /// Assigns the solver indices.
    ///
    /// Run once, after all constraints are registered and before the first
    /// evaluation.  In a fixed, deterministic order - objects as registered,
    /// axes in the fixed order - every enabled, unlocked, unaliased variable
    /// receives the next free index; a second pass copies index and initial
    /// value onto every aliased variable from its target, which by the
    /// flatness precondition is itself no alias.  Nothing else changes: the
    /// index space is dense, gap-free, and reproducible for identical input
    /// order.
    pub fn add_indices(&mut self)
        requires
            old(self).wf(),
            flat_aliases(old(self).sys_objects@),
            old(self).sys_objects@.len() * 6 <= usize::MAX,
        ensures
            final(self).wf(),
            final(self).constraints == old(self).constraints,
            final(self).sys_names == old(self).sys_names,
            final(self).zero == old(self).zero,
            final(self).sys_objects@.len() == old(self).sys_objects@.len(),
            // Only indices and initial values move; every other part of
            // every variable, and the caches and their switches, stay.
            forall|o: int|
                0 <= o < old(self).sys_objects@.len() ==> same_but_indexing(
                    #[trigger] final(self).sys_objects@[o],
                    old(self).sys_objects@[o],
                ),
            // Heads carry their rank as index, and aliases their target's
            // index and initial value.
            well_indexed(final(self).sys_objects@),
            // The head pattern, and with it the solver size, is unchanged.
            forall|o: int, a: int|
                0 <= o <= old(self).sys_objects@.len() && 0 <= a <= 6 && (o < old(
                    self,
                ).sys_objects@.len() || a == 0) ==> rank_to(final(self).sys_objects@, o, a)
                    == rank_to(old(self).sys_objects@, o, a),
    {
        let ghost orig = self.sys_objects@;
        self.assign_head_indices();
        let ghost mid = self.sys_objects@;
        proof {
            lemma_pass_one_keeps_structure(orig, mid);
        }
        self.resolve_alias_indices();
        proof {
            lemma_passes_combine(orig, mid, self.sys_objects@);
        }
    }
}

/// The first pass moves no enabled, locked or alias state: the head pattern
/// and the flatness of aliases carry over to the intermediate state.
proof fn lemma_pass_one_keeps_structure<S>(orig: Seq<SystemObject<S>>, mid: Seq<SystemObject<S>>)
    requires
        mid.len() == orig.len(),
        forall|o: int, a: int|
            0 <= o < orig.len() && 0 <= a < 6 && is_head(#[trigger] obj_var(orig, o, a))
                ==> obj_var(mid, o, a) == (Variable {
                index: rank_to(orig, o, a) as usize,
                ..obj_var(orig, o, a)
            }),
        forall|o: int, a: int|
            0 <= o < orig.len() && 0 <= a < 6 && !is_head(#[trigger] obj_var(orig, o, a))
                ==> obj_var(mid, o, a) == obj_var(orig, o, a),
        flat_aliases(orig),
    ensures
        flat_aliases(mid),
        forall|o: int, a: int|
            0 <= o < mid.len() && 0 <= a < 6 ==> is_head(#[trigger] obj_var(mid, o, a))
                == is_head(obj_var(orig, o, a)) && obj_var(mid, o, a).equal == obj_var(
                orig,
                o,
                a,
            ).equal && obj_var(mid, o, a).initial_value == obj_var(orig, o, a).initial_value,
{
    assert forall|o: int, a: int|
        0 <= o < mid.len() && 0 <= a < 6 implies is_head(#[trigger] obj_var(mid, o, a))
        == is_head(obj_var(orig, o, a)) && obj_var(mid, o, a).equal == obj_var(
        orig,
        o,
        a,
    ).equal && obj_var(mid, o, a).initial_value == obj_var(orig, o, a).initial_value by {
        if is_head(obj_var(orig, o, a)) {
            assert(obj_var(mid, o, a) == (Variable {
                index: rank_to(orig, o, a) as usize,
                ..obj_var(orig, o, a)
            }));
        } else {
            assert(obj_var(mid, o, a) == obj_var(orig, o, a));
        }
    }
}

/// Combining the two passes leaves the system well indexed, with the head
/// pattern (and so every rank) as it originally was.
#[verifier::rlimit(100)]
proof fn lemma_passes_combine<S>(
    orig: Seq<SystemObject<S>>,
    mid: Seq<SystemObject<S>>,
    fin: Seq<SystemObject<S>>,
)
    requires
        mid.len() == orig.len(),
        fin.len() == mid.len(),
        forall|o: int, a: int|
            0 <= o < orig.len() && 0 <= a < 6 && is_head(#[trigger] obj_var(orig, o, a))
                ==> obj_var(mid, o, a) == (Variable {
                index: rank_to(orig, o, a) as usize,
                ..obj_var(orig, o, a)
            }),
        forall|o: int, a: int|
            0 <= o < orig.len() && 0 <= a < 6 && !is_head(#[trigger] obj_var(orig, o, a))
                ==> obj_var(mid, o, a) == obj_var(orig, o, a),
        flat_aliases(mid),
        forall|o: int, a: int|
            0 <= o < mid.len() && 0 <= a < 6 && (#[trigger] obj_var(mid, o, a)).equal.is_none()
                ==> obj_var(fin, o, a) == obj_var(mid, o, a),
        forall|o: int, a: int|
            0 <= o < mid.len() && 0 <= a < 6 && (#[trigger] obj_var(mid, o, a)).equal.is_some()
                ==> obj_var(fin, o, a) == (Variable {
                index: obj_var(
                    mid,
                    target_of(obj_var(mid, o, a)).0,
                    target_of(obj_var(mid, o, a)).1,
                ).index,
                initial_value: obj_var(
                    mid,
                    target_of(obj_var(mid, o, a)).0,
                    target_of(obj_var(mid, o, a)).1,
                ).initial_value,
                ..obj_var(mid, o, a)
            }),
        forall|o: int, a: int|
            0 <= o < mid.len() && 0 <= a < 6 ==> is_head(#[trigger] obj_var(mid, o, a))
                == is_head(obj_var(orig, o, a)),
        orig.len() * 6 <= usize::MAX,
    ensures
        well_indexed(fin),
        forall|o: int, a: int|
            0 <= o <= fin.len() && 0 <= a <= 6 && (o < fin.len() || a == 0) ==> rank_to(
                fin,
                o,
                a,
            ) == rank_to(orig, o, a),
{
    assert forall|o: int, a: int|
        0 <= o < fin.len() && 0 <= a < 6 implies is_head(#[trigger] obj_var(fin, o, a))
        == is_head(obj_var(mid, o, a)) && obj_var(fin, o, a).equal == obj_var(
        mid,
        o,
        a,
    ).equal by {
        if obj_var(mid, o, a).equal.is_some() {
        } else {
            assert(obj_var(fin, o, a) == obj_var(mid, o, a));
        }
    }
    assert forall|o: int, a: int|
        0 <= o <= fin.len() && 0 <= a <= 6 && (o < fin.len() || a == 0) implies rank_to(
        fin,
        o,
        a,
    ) == rank_to(orig, o, a) by {
        lemma_rank_same_heads(fin, orig, o, a);
    }
    assert forall|o: int, a: int|
        0 <= o < fin.len() && 0 <= a < 6 && is_head(
            #[trigger] obj_var(fin, o, a),
        ) implies obj_var(fin, o, a).index == rank_to(fin, o, a) by {
        assert(is_head(obj_var(mid, o, a)));
        assert(is_head(obj_var(orig, o, a)));
        assert(obj_var(mid, o, a) == (Variable {
            index: rank_to(orig, o, a) as usize,
            ..obj_var(orig, o, a)
        }));
        assert(obj_var(mid, o, a).equal.is_none());
        assert(obj_var(fin, o, a) == obj_var(mid, o, a));
        lemma_rank_le_positions(orig, o, a);
        assert(6 * o + a < 6 * orig.len());
        assert(rank_to(orig, o, a) as usize as int == rank_to(orig, o, a));
        assert(rank_to(fin, o, a) == rank_to(orig, o, a));
    }
    assert forall|o: int, a: int|
        0 <= o < fin.len() && 0 <= a < 6 && (#[trigger] obj_var(fin, o, a)).equal.is_some() implies
        obj_var(fin, o, a).index == obj_var(
        fin,
        target_of(obj_var(fin, o, a)).0,
        target_of(obj_var(fin, o, a)).1,
    ).index && obj_var(fin, o, a).initial_value == obj_var(
        fin,
        target_of(obj_var(fin, o, a)).0,
        target_of(obj_var(fin, o, a)).1,
    ).initial_value by {
        assert(obj_var(mid, o, a).equal.is_some());
        let t = target_of(obj_var(mid, o, a));
        assert(0 <= t.0 < mid.len() && obj_var(mid, t.0, t.1).equal.is_none());
        assert(0 <= t.1 < 6) by {
            lemma_variable_order_ord(obj_var(mid, o, a).equal->Some_0.1);
        }
        assert(obj_var(fin, t.0, t.1) == obj_var(mid, t.0, t.1));
        assert(target_of(obj_var(fin, o, a)) == t);
    }
}

/// Writes a target's index and initial value onto one variable of an
/// object; nothing else of the object moves.
fn copy_alias_fields<S>(obj: &mut SystemObject<S>, name: VariableName, idx: usize, init: S)
    ensures
        final(obj).vars == (spec_set_axis(
            old(obj).vars,
            name,
            Variable { index: idx, initial_value: init, ..axis_var(old(obj).vars, name) },
        )),
        final(obj).q_vals == old(obj).q_vals,
        final(obj).v_vals == old(obj).v_vals,
        final(obj).q_enable == old(obj).q_enable,
        final(obj).v_enable == old(obj).v_enable,
{
    let variable = obj.vars.get_mut_variable(name);
    variable.index = idx;
    variable.initial_value = init;
}

/// Only solver indices and initial values differ between the two objects:
/// the variables' values, states and aliases, the caches and the cache
/// switches all agree.
pub open spec fn same_but_indexing<S>(post: SystemObject<S>, pre: SystemObject<S>) -> bool {
    &&& post.q_vals == pre.q_vals
    &&& post.v_vals == pre.v_vals
    &&& post.q_enable == pre.q_enable
    &&& post.v_enable == pre.v_enable
    &&& forall|a: VariableName|
        #[trigger] axis_var(post.vars, a) == (Variable {
            index: axis_var(post.vars, a).index,
            initial_value: axis_var(post.vars, a).initial_value,
            ..axis_var(pre.vars, a)
        })
}

/// How many enabled variables precede the grid position `(o, a)`.
pub open spec fn enabled_to<S>(objs: Seq<SystemObject<S>>, o: int, a: int) -> int
    decreases o, a,
{
    if o <= 0 && a <= 0 {
        0
    } else if a <= 0 {
        enabled_to(objs, o - 1, 6)
    } else {
        enabled_to(objs, o, a - 1) + (if obj_var(objs, o, a - 1).enabled {
            1int
        } else {
            0
        })
    }
}

/// The enabled count never exceeds the number of positions.
pub proof fn lemma_enabled_le_positions<S>(objs: Seq<SystemObject<S>>, o: int, a: int)
    requires
        0 <= o,
        0 <= a <= 6,
    ensures
        0 <= enabled_to(objs, o, a) <= 6 * o + a,
    decreases o, a,
{
    if o == 0 && a == 0 {
    } else if a == 0 {
        lemma_enabled_le_positions(objs, o - 1, 6);
    } else {
        lemma_enabled_le_positions(objs, o, a - 1);
    }
}

/// One object's variables after a solver step: every enabled, unlocked
/// variable holds its cell of the candidate vector, everything else is as
/// before, and each cache the object keeps live reflects the new values.
pub open spec fn object_updated<S>(post: SystemObject<S>, pre: SystemObject<S>, x: Seq<S>) -> bool {
    &&& forall|a: VariableName|
        is_free(#[trigger] axis_var(pre.vars, a)) ==> axis_var(post.vars, a) == (Variable {
            value: x[axis_var(pre.vars, a).index as int],
            ..axis_var(pre.vars, a)
        })
    &&& forall|a: VariableName|
        !is_free(#[trigger] axis_var(pre.vars, a)) ==> axis_var(post.vars, a) == axis_var(
            pre.vars,
            a,
        )
    &&& post.q_enable == pre.q_enable
    &&& post.v_enable == pre.v_enable
    &&& !pre.v_enable ==> post.v_vals == pre.v_vals
    &&& !pre.q_enable ==> post.q_vals == pre.q_vals
    &&& pre.v_enable ==> vector_refreshed(post.v_vals, post.vars.x, post.vars.y, post.vars.z)
    &&& pre.q_enable ==> quaternion_refreshed(
        post.q_vals,
        post.vars.phi,
        post.vars.theta,
        post.vars.psi,
    )
}

/// Pushes one object's share of the candidate vector into its variables and
/// refreshes the caches it keeps live.
#[verifier::rlimit(100)]
fn push_candidate_into_object<S: DualAlgebra>(obj: &mut SystemObject<S>, x: &Vec<S>)
    requires
        forall|a: VariableName|
            is_free(#[trigger] axis_var(old(obj).vars, a)) ==> axis_var(
                old(obj).vars,
                a,
            ).index < x@.len(),
    ensures
        object_updated(*final(obj), *old(obj), x@),
{
    proof {
        let v0 = obj.vars;
        assert(axis_var(v0, VariableName::x) == v0.x);
        assert(axis_var(v0, VariableName::y) == v0.y);
        assert(axis_var(v0, VariableName::z) == v0.z);
        assert(axis_var(v0, VariableName::phi) == v0.phi);
        assert(axis_var(v0, VariableName::theta) == v0.theta);
        assert(axis_var(v0, VariableName::psi) == v0.psi);
    }
    let mut vars = obj.vars;
    if vars.x.enabled && !vars.x.locked {
        vars.x.value = x[vars.x.index];
    }
    if vars.y.enabled && !vars.y.locked {
        vars.y.value = x[vars.y.index];
    }
    if vars.z.enabled && !vars.z.locked {
        vars.z.value = x[vars.z.index];
    }
    if vars.phi.enabled && !vars.phi.locked {
        vars.phi.value = x[vars.phi.index];
    }
    if vars.theta.enabled && !vars.theta.locked {
        vars.theta.value = x[vars.theta.index];
    }
    if vars.psi.enabled && !vars.psi.locked {
        vars.psi.value = x[vars.psi.index];
    }
    obj.vars = vars;
    if obj.q_enable {
        obj.update_q();
    }
    if obj.v_enable {
        obj.update_v();
    }
}

/// Whether any constraint of the system scatters into global cell `k`.
pub open spec fn grad_touched<S>(s: System<S>, k: int) -> bool {
    exists|ci: int|
        0 <= ci < s.constraints@.len() && (#[trigger] s.constraints@[ci]).targets(
            s.sys_objects@,
        ).contains(k)
}

/// Whether any single constraint of the system scatters into the Hessian
/// cell `(k, l)`.
pub open spec fn hess_touched<S>(s: System<S>, k: int, l: int) -> bool {
    exists|ci: int|
        0 <= ci < s.constraints@.len() && (#[trigger] s.constraints@[ci]).targets(
            s.sys_objects@,
        ).contains(k) && s.constraints@[ci].targets(s.sys_objects@).contains(l)
}

impl<S: DualAlgebra> System<S> {
    /// The number of enabled variables in the system, locked and aliased
    /// ones included.
    pub fn get_enabled_size(&self) -> (r: usize)
        requires
            self.sys_objects@.len() * 6 <= usize::MAX,
        ensures
            r == enabled_to(self.sys_objects@, self.sys_objects@.len() as int, 0),
    {
        let n = self.sys_objects.len();
        let mut i: usize = 0;
        let mut o: usize = 0;
        while o < n
            invariant
                o <= n,
                n == self.sys_objects@.len(),
                n * 6 <= usize::MAX,
                i == enabled_to(self.sys_objects@, o as int, 0),
            decreases n - o,
        {
            let mut a: usize = 0;
            while a < 6
                invariant
                    o < n,
                    a <= 6,
                    n == self.sys_objects@.len(),
                    n * 6 <= usize::MAX,
                    i == enabled_to(self.sys_objects@, o as int, a as int),
                decreases 6 - a,
            {
                proof {
                    lemma_enabled_le_positions(self.sys_objects@, o as int, a as int);
                }
                let name = variable_at(a);
                if self.sys_objects[o].vars.get_variable(name).enabled {
                    i = i + 1;
                }
                a = a + 1;
            }
            proof {
                assert(enabled_to(self.sys_objects@, o + 1, 0) == enabled_to(
                    self.sys_objects@,
                    o as int,
                    6,
                ));
            }
            o = o + 1;
        }
        i
    }

    /// The number of solver variables: enabled, unlocked, unaliased ones.
    pub fn get_solver_size(&self) -> (r: usize)
        requires
            self.sys_objects@.len() * 6 <= usize::MAX,
        ensures
            r == solver_size(self.sys_objects@),
    {
        let n = self.sys_objects.len();
        let mut i: usize = 0;
        let mut o: usize = 0;
        while o < n
            invariant
                o <= n,
                n == self.sys_objects@.len(),
                n * 6 <= usize::MAX,
                i == rank_to(self.sys_objects@, o as int, 0),
            decreases n - o,
        {
            let mut a: usize = 0;
            while a < 6
                invariant
                    o < n,
                    a <= 6,
                    n == self.sys_objects@.len(),
                    n * 6 <= usize::MAX,
                    i == rank_to(self.sys_objects@, o as int, a as int),
                decreases 6 - a,
            {
                proof {
                    lemma_rank_le_positions(self.sys_objects@, o as int, a as int);
                }
                let name = variable_at(a);
                let v = *self.sys_objects[o].vars.get_variable(name);
                if v.enabled && !v.locked && v.equal.is_none() {
                    i = i + 1;
                }
                a = a + 1;
            }
            proof {
                assert(rank_to(self.sys_objects@, o + 1, 0) == rank_to(
                    self.sys_objects@,
                    o as int,
                    6,
                ));
            }
            o = o + 1;
        }
        i
    }

    /// The starting point for the solver: a dense vector with each
    /// index-carrying variable's initial value at its assigned solver index.
    /// Aliased variables share their target's index and initial value, so
    /// they are represented by the same cell.
    pub fn start_position(&self) -> (r: Vec<S>)
        requires
            well_indexed(self.sys_objects@),
            self.sys_objects@.len() * 6 <= usize::MAX,
        ensures
            r@.len() == solver_size(self.sys_objects@),
            forall|o: int, a: int|
                0 <= o < self.sys_objects@.len() && 0 <= a < 6 && is_head(
                    #[trigger] obj_var(self.sys_objects@, o, a),
                ) ==> r@[obj_var(self.sys_objects@, o, a).index as int] == obj_var(
                    self.sys_objects@,
                    o,
                    a,
                ).initial_value,
    {
        let n = self.sys_objects.len();
        let count = self.get_solver_size();
        let zero = S::zero();
        let mut output: Vec<S> = Vec::new();
        let mut f: usize = 0;
        while f < count
            invariant
                f <= count,
                output@.len() == f,
            decreases count - f,
        {
            output.push(zero);
            f = f + 1;
        }
        let mut o: usize = 0;
        while o < n
            invariant
                o <= n,
                n == self.sys_objects@.len(),
                n * 6 <= usize::MAX,
                well_indexed(self.sys_objects@),
                count == solver_size(self.sys_objects@),
                output@.len() == count,
                forall|o2: int, a2: int|
                    0 <= o2 < o && 0 <= a2 < 6 && is_head(
                        #[trigger] obj_var(self.sys_objects@, o2, a2),
                    ) ==> output@[obj_var(self.sys_objects@, o2, a2).index as int] == obj_var(
                        self.sys_objects@,
                        o2,
                        a2,
                    ).initial_value,
            decreases n - o,
        {
            let mut a: usize = 0;
            while a < 6
                invariant
                    o < n,
                    a <= 6,
                    n == self.sys_objects@.len(),
                    n * 6 <= usize::MAX,
                    well_indexed(self.sys_objects@),
                    count == solver_size(self.sys_objects@),
                    output@.len() == count,
                    forall|o2: int, a2: int|
                        0 <= o2 < n && 0 <= a2 < 6 && (o2 < o || (o2 == o && a2 < a)) && is_head(
                            #[trigger] obj_var(self.sys_objects@, o2, a2),
                        ) ==> output@[obj_var(self.sys_objects@, o2, a2).index as int] == obj_var(
                            self.sys_objects@,
                            o2,
                            a2,
                        ).initial_value,
                decreases 6 - a,
            {
                let name = variable_at(a);
                let v = *self.sys_objects[o].vars.get_variable(name);
                if v.enabled && !v.locked && v.equal.is_none() {
                    proof {
                        assert(v == obj_var(self.sys_objects@, o as int, a as int));
                        lemma_head_rank_in_range(self.sys_objects@, o as int, a as int);
                        // Earlier heads sit strictly below this one's rank,
                        // so the write clobbers none of them.
                        assert forall|o2: int, a2: int|
                            0 <= o2 < n && 0 <= a2 < 6 && (o2 < o || (o2 == o && a2 < a))
                                && is_head(
                                #[trigger] obj_var(self.sys_objects@, o2, a2),
                            ) implies obj_var(self.sys_objects@, o2, a2).index < obj_var(
                            self.sys_objects@,
                            o as int,
                            a as int,
                        ).index by {
                            lemma_rank_le_positions(self.sys_objects@, o2, a2);
                            assert(rank_to(self.sys_objects@, o2, a2 + 1) == rank_to(
                                self.sys_objects@,
                                o2,
                                a2,
                            ) + 1);
                            lemma_rank_monotone(
                                self.sys_objects@,
                                o2,
                                a2 + 1,
                                o as int,
                                a as int,
                            );
                        }
                    }
                    let k = v.index;
                    output[k] = v.initial_value;
                }
                a = a + 1;
            }
            o = o + 1;
        }
        output
    }

    /// Pushes the optimizer's candidate vector into the variables and
    /// refreshes every live derivative cache.
    ///
    /// This is the first phase of an iteration; caches must be refreshed
    /// here, before any constraint evaluation reads them.
    pub fn update_x(&mut self, x: &Vec<S>)
        requires
            old(self).wf(),
            forall|o: int, a: int|
                0 <= o < old(self).sys_objects@.len() && 0 <= a < 6 && is_free(
                    #[trigger] obj_var(old(self).sys_objects@, o, a),
                ) ==> obj_var(old(self).sys_objects@, o, a).index < x@.len(),
        ensures
            final(self).wf(),
            final(self).constraints == old(self).constraints,
            final(self).sys_names == old(self).sys_names,
            final(self).zero == old(self).zero,
            final(self).sys_objects@.len() == old(self).sys_objects@.len(),
            forall|o: int|
                0 <= o < old(self).sys_objects@.len() ==> object_updated(
                    #[trigger] final(self).sys_objects@[o],
                    old(self).sys_objects@[o],
                    x@,
                ),
    {
        let n = self.sys_objects.len();
        let mut o: usize = 0;
        while o < n
            invariant
                o <= n,
                n == self.sys_objects@.len(),
                self.constraints == old(self).constraints,
                self.sys_names == old(self).sys_names,
                self.zero == old(self).zero,
                forall|o2: int, a: int|
                    0 <= o2 < n && 0 <= a < 6 && is_free(
                        #[trigger] obj_var(old(self).sys_objects@, o2, a),
                    ) ==> obj_var(old(self).sys_objects@, o2, a).index < x@.len(),
                forall|o2: int|
                    o <= o2 < n ==> self.sys_objects@[o2] == old(self).sys_objects@[o2],
                forall|o2: int|
                    0 <= o2 < o ==> object_updated(
                        #[trigger] self.sys_objects@[o2],
                        old(self).sys_objects@[o2],
                        x@,
                    ),
            decreases n - o,
        {
            proof {
                assert(self.sys_objects@[o as int] == old(self).sys_objects@[o as int]);
                assert forall|a: VariableName|
                    is_free(
                        #[trigger] axis_var(self.sys_objects@[o as int].vars, a),
                    ) implies axis_var(self.sys_objects@[o as int].vars, a).index
                    < x@.len() by {
                    lemma_variable_order_ord(a);
                    assert(obj_var(old(self).sys_objects@, o as int, variable_ord(a))
                        == axis_var(self.sys_objects@[o as int].vars, a));
                }
            }
            let obj = &mut self.sys_objects[o];
            push_candidate_into_object(obj, x);
            o = o + 1;
        }
    }

    /// Evaluates every constraint against the current object state.
    ///
    /// Values, gradients and Hessians land in the constraints' scratch
    /// buffers; the objects themselves are only read.
    pub fn eval(&mut self)
        requires
            old(self).wf(),
        ensures
            final(self).wf(),
            final(self).sys_objects == old(self).sys_objects,
            final(self).sys_names == old(self).sys_names,
            final(self).zero == old(self).zero,
            final(self).constraints@.len() == old(self).constraints@.len(),
            forall|c: int|
                0 <= c < old(self).constraints@.len() ==> (#[trigger] final(self).constraints@[c]).same_shape(old(self).constraints@[c]),
    {
        let m = self.constraints.len();
        let mut ci: usize = 0;
        while ci < m
            invariant
                ci <= m,
                m == self.constraints@.len(),
                self.wf(),
                self.sys_objects == old(self).sys_objects,
                self.sys_names == old(self).sys_names,
                self.zero == old(self).zero,
                forall|c: int|
                    0 <= c < m ==> (#[trigger] self.constraints@[c]).same_shape(
                        old(self).constraints@[c],
                    ),
            decreases m - ci,
        {
            let constraint = &mut self.constraints[ci];
            constraint.evaluate(&self.sys_objects);
            ci = ci + 1;
        }
    }

    /// Evaluates every constraint and returns the objective: the sum of the
    /// constraint errors in the supplied algebra.
    pub fn eval_real(&mut self) -> (r: S)
        requires
            old(self).wf(),
        ensures
            final(self).wf(),
            final(self).sys_objects == old(self).sys_objects,
            final(self).sys_names == old(self).sys_names,
            final(self).zero == old(self).zero,
            final(self).constraints@.len() == old(self).constraints@.len(),
    {
        self.eval();
        let mut value = self.zero;
        let m = self.constraints.len();
        let mut ci: usize = 0;
        while ci < m
            invariant
                ci <= m,
                m == self.constraints@.len(),
            decreases m - ci,
        {
            value = S::sum(value, self.constraints[ci].get_value());
            ci = ci + 1;
        }
        value
    }

    /// Assembles the global gradient: zeroes the buffer, then lets every
    /// constraint add its contribution at its own variables' solver indices.
    /// A cell no constraint targets holds exactly the zero it was filled
    /// with - in particular every index belonging only to disabled or locked
    /// variables.
    pub fn grad(&self, output: &mut Vec<S>)
        requires
            self.wf(),
            forall|c: int|
                0 <= c < self.constraints@.len() ==> (#[trigger] self.constraints@[c]).targets_below(
                    self.sys_objects@,
                    old(output)@.len() as int,
                ),
        ensures
            final(output)@.len() == old(output)@.len(),
            forall|k: int|
                0 <= k < old(output)@.len() && !grad_touched(*self, k) ==> final(output)@[k]
                    == self.zero,
    {
        let len = output.len();
        let mut k: usize = 0;
        while k < len
            invariant
                k <= len,
                output@.len() == len,
                forall|j: int| 0 <= j < k ==> output@[j] == self.zero,
            decreases len - k,
        {
            output[k] = self.zero;
            k = k + 1;
        }
        let m = self.constraints.len();
        let mut ci: usize = 0;
        while ci < m
            invariant
                ci <= m,
                m == self.constraints@.len(),
                self.wf(),
                output@.len() == len,
                forall|c: int|
                    0 <= c < m ==> (#[trigger] self.constraints@[c]).targets_below(
                        self.sys_objects@,
                        len as int,
                    ),
                forall|j: int|
                    0 <= j < len && !grad_touched(*self, j) ==> output@[j] == self.zero,
            decreases m - ci,
        {
            self.constraints[ci].get_gradient(output, &self.sys_objects);
            ci = ci + 1;
        }
    }

    /// The directional-derivative hook of the optimizer interface; the
    /// constraint kinds here have no path-dependent direction, so it is the
    /// algebra's zero.
    pub fn diff(&self) -> (r: S)
        ensures
            r == self.zero,
    {
        self.zero
    }

    /// Assembles the global Hessian: zeroes the buffer, then lets every
    /// constraint add its block at its own variables' index pairs.  A cell
    /// no single constraint targets on both coordinates holds exactly the
    /// zero it was filled with.
    pub fn hess(&self, output: &mut Vec<Vec<S>>)
        requires
            self.wf(),
            forall|r: int|
                0 <= r < old(output)@.len() ==> (#[trigger] old(output)@[r])@.len() == old(
                    output,
                )@.len(),
            forall|c: int|
                0 <= c < self.constraints@.len() ==> (#[trigger] self.constraints@[c]).targets_below(
                    self.sys_objects@,
                    old(output)@.len() as int,
                ),
        ensures
            final(output)@.len() == old(output)@.len(),
            forall|r: int|
                0 <= r < final(output)@.len() ==> (#[trigger] final(output)@[r])@.len() == final(output)@.len(),
            forall|k: int, l: int|
                0 <= k < old(output)@.len() && 0 <= l < old(output)@.len() && !hess_touched(
                    *self,
                    k,
                    l,
                ) ==> final(output)@[k]@[l] == self.zero,
    {
        let len = output.len();
        let mut k: usize = 0;
        while k < len
            invariant
                k <= len,
                output@.len() == len,
                forall|r: int|
                    0 <= r < len ==> (#[trigger] output@[r])@.len() == len,
                forall|r: int, c: int|
                    0 <= r < k && 0 <= c < len ==> output@[r]@[c] == self.zero,
            decreases len - k,
        {
            let mut c: usize = 0;
            while c < len
                invariant
                    k < len,
                    c <= len,
                    output@.len() == len,
                    forall|r: int|
                        0 <= r < len ==> (#[trigger] output@[r])@.len() == len,
                    forall|r: int, c2: int|
                        0 <= r < k && 0 <= c2 < len ==> output@[r]@[c2] == self.zero,
                    forall|c2: int| 0 <= c2 < c ==> output@[k as int]@[c2] == self.zero,
                decreases len - c,
            {
                output[k][c] = self.zero;
                c = c + 1;
            }
            k = k + 1;
        }
        let m = self.constraints.len();
        let mut ci: usize = 0;
        while ci < m
            invariant
                ci <= m,
                m == self.constraints@.len(),
                self.wf(),
                output@.len() == len,
                forall|r: int|
                    0 <= r < len ==> (#[trigger] output@[r])@.len() == len,
                forall|c: int|
                    0 <= c < m ==> (#[trigger] self.constraints@[c]).targets_below(
                        self.sys_objects@,
                        len as int,
                    ),
                forall|k2: int, l2: int|
                    0 <= k2 < len && 0 <= l2 < len && !hess_touched(*self, k2, l2)
                        ==> output@[k2]@[l2] == self.zero,
            decreases m - ci,
        {
            self.constraints[ci].get_hessian(output, &self.sys_objects);
            ci = ci + 1;
        }
    }
}

/// For an object whose six variables are all enabled, unlocked and
/// unaliased, the index assignment gives six consecutive - and therefore
/// distinct - solver indices within the global range.
pub proof fn lemma_object_indices_contiguous<S>(objs: Seq<SystemObject<S>>, o: int)
    requires
        well_indexed(objs),
        0 <= o < objs.len(),
        objs.len() * 6 <= usize::MAX,
        forall|a: int| 0 <= a < 6 ==> is_head(#[trigger] obj_var(objs, o, a)),
    ensures
        forall|a: int|
            0 <= a < 6 ==> obj_var(objs, o, a).index == rank_to(objs, o, 0) + a,
        forall|a: int|
            0 <= a < 6 ==> obj_var(objs, o, a).index < solver_size(objs),
{
    assert forall|a: int|
        0 <= a < 6 implies obj_var(objs, o, a).index == rank_to(objs, o, 0) + a && obj_var(
        objs,
        o,
        a,
    ).index < solver_size(objs) by {
        assert(rank_to(objs, o, 1) == rank_to(objs, o, 0) + 1);
        assert(rank_to(objs, o, 2) == rank_to(objs, o, 1) + 1);
        assert(rank_to(objs, o, 3) == rank_to(objs, o, 2) + 1);
        assert(rank_to(objs, o, 4) == rank_to(objs, o, 3) + 1);
        assert(rank_to(objs, o, 5) == rank_to(objs, o, 4) + 1);
        lemma_head_rank_in_range(objs, o, a);
    }
}

/// An object whose six variables are all locked consumes no solver index:
/// the rank does not move across it.
pub proof fn lemma_locked_object_consumes_nothing<S>(objs: Seq<SystemObject<S>>, o: int)
    requires
        0 <= o < objs.len(),
        forall|a: int| 0 <= a < 6 ==> (#[trigger] obj_var(objs, o, a)).locked,
    ensures
        rank_to(objs, o + 1, 0) == rank_to(objs, o, 0),
{
    assert(rank_to(objs, o, 1) == rank_to(objs, o, 0));
    assert(rank_to(objs, o, 2) == rank_to(objs, o, 1));
    assert(rank_to(objs, o, 3) == rank_to(objs, o, 2));
    assert(rank_to(objs, o, 4) == rank_to(objs, o, 3));
    assert(rank_to(objs, o, 5) == rank_to(objs, o, 4));
    assert(rank_to(objs, o, 6) == rank_to(objs, o, 5));
    assert(rank_to(objs, o + 1, 0) == rank_to(objs, o, 6));
}

/// After the index assignment an aliased variable shares its target's solver
/// index and initial value - however the equalities were registered, and in
/// whatever order.
pub proof fn lemma_alias_shares_index<S>(objs: Seq<SystemObject<S>>, o: int, a: int)
    requires
        well_indexed(objs),
        0 <= o < objs.len(),
        0 <= a < 6,
        obj_var(objs, o, a).equal.is_some(),
    ensures
        obj_var(objs, o, a).index == obj_var(
            objs,
            target_of(obj_var(objs, o, a)).0,
            target_of(obj_var(objs, o, a)).1,
        ).index,
        obj_var(objs, o, a).initial_value == obj_var(
            objs,
            target_of(obj_var(objs, o, a)).0,
            target_of(obj_var(objs, o, a)).1,
        ).initial_value,
{
}
} // verus!
