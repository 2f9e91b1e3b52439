//! End-to-end tests of the solver core, driven through a floating-point
//! implementation of the supplied dual-number algebra.

use solver::build_constraints;
use solver::number_system::{DualAlgebra, DualQuaternion, DualVector, HyperDual};
use solver::system::{AxisValues, BuildError, System};
use solver::system_object::VariableName;
use solver::constraints::fix_base_constraint::FixParameters;
use solver::ConstraintRequest;

/// The test scalar: a plain f64 wrapped so the algebra trait can be
/// implemented for it.
#[derive(Clone, Copy, Debug, PartialEq)]
struct R(f64);

fn hd(re: f64, e1: f64, e2: f64, e1e2: f64) -> HyperDual<R> {
    HyperDual { re: R(re), e1: R(e1), e2: R(e2), e1e2: R(e1e2) }
}

fn hd_add(a: HyperDual<R>, b: HyperDual<R>) -> HyperDual<R> {
    hd(
        a.re.0 + b.re.0,
        a.e1.0 + b.e1.0,
        a.e2.0 + b.e2.0,
        a.e1e2.0 + b.e1e2.0,
    )
}

fn hd_sub(a: HyperDual<R>, b: HyperDual<R>) -> HyperDual<R> {
    hd(
        a.re.0 - b.re.0,
        a.e1.0 - b.e1.0,
        a.e2.0 - b.e2.0,
        a.e1e2.0 - b.e1e2.0,
    )
}

fn hd_mul(a: HyperDual<R>, b: HyperDual<R>) -> HyperDual<R> {
    hd(
        a.re.0 * b.re.0,
        a.re.0 * b.e1.0 + a.e1.0 * b.re.0,
        a.re.0 * b.e2.0 + a.e2.0 * b.re.0,
        a.re.0 * b.e1e2.0 + a.e1.0 * b.e2.0 + a.e2.0 * b.e1.0 + a.e1e2.0 * b.re.0,
    )
}

fn hd_scale(a: HyperDual<R>, s: f64) -> HyperDual<R> {
    hd(a.re.0 * s, a.e1.0 * s, a.e2.0 * s, a.e1e2.0 * s)
}

fn hd_sin(x: HyperDual<R>) -> HyperDual<R> {
    let s = x.re.0.sin();
    let c = x.re.0.cos();
    hd(
        s,
        c * x.e1.0,
        c * x.e2.0,
        c * x.e1e2.0 - s * x.e1.0 * x.e2.0,
    )
}

fn hd_cos(x: HyperDual<R>) -> HyperDual<R> {
    let s = x.re.0.sin();
    let c = x.re.0.cos();
    hd(
        c,
        -s * x.e1.0,
        -s * x.e2.0,
        -s * x.e1e2.0 - c * x.e1.0 * x.e2.0,
    )
}

fn quat_mul(a: DualQuaternion<R>, b: DualQuaternion<R>) -> DualQuaternion<R> {
    DualQuaternion {
        q0: hd_sub(
            hd_sub(hd_sub(hd_mul(a.q0, b.q0), hd_mul(a.q1, b.q1)), hd_mul(a.q2, b.q2)),
            hd_mul(a.q3, b.q3),
        ),
        q1: hd_add(
            hd_sub(hd_add(hd_mul(a.q0, b.q1), hd_mul(a.q1, b.q0)), hd_mul(a.q2, b.q3)),
            hd_mul(a.q3, b.q2),
        ),
        q2: hd_sub(
            hd_add(hd_add(hd_mul(a.q0, b.q2), hd_mul(a.q2, b.q0)), hd_mul(a.q1, b.q3)),
            hd_mul(a.q3, b.q1),
        ),
        q3: hd_add(
            hd_sub(hd_add(hd_mul(a.q0, b.q3), hd_mul(a.q3, b.q0)), hd_mul(a.q1, b.q2)),
            hd_mul(a.q2, b.q1),
        ),
    }
}

impl DualAlgebra for R {
    fn zero() -> Self {
        R(0.0)
    }

    fn one() -> Self {
        R(1.0)
    }

    fn sum(a: Self, b: Self) -> Self {
        R(a.0 + b.0)
    }

    fn dual_add(a: HyperDual<R>, b: HyperDual<R>) -> HyperDual<R> {
        hd_add(a, b)
    }

    fn dual_sub(a: HyperDual<R>, b: HyperDual<R>) -> HyperDual<R> {
        hd_sub(a, b)
    }

    fn dual_sqr(a: HyperDual<R>) -> HyperDual<R> {
        hd_mul(a, a)
    }

    fn quat_from_angles(
        phi: HyperDual<R>,
        theta: HyperDual<R>,
        psi: HyperDual<R>,
    ) -> DualQuaternion<R> {
        let cp = hd_cos(hd_scale(phi, 0.5));
        let sp = hd_sin(hd_scale(phi, 0.5));
        let ct = hd_cos(hd_scale(theta, 0.5));
        let st = hd_sin(hd_scale(theta, 0.5));
        let cs = hd_cos(hd_scale(psi, 0.5));
        let ss = hd_sin(hd_scale(psi, 0.5));
        DualQuaternion {
            q0: hd_add(hd_mul(hd_mul(cp, ct), cs), hd_mul(hd_mul(sp, st), ss)),
            q1: hd_sub(hd_mul(hd_mul(sp, ct), cs), hd_mul(hd_mul(cp, st), ss)),
            q2: hd_add(hd_mul(hd_mul(cp, st), cs), hd_mul(hd_mul(sp, ct), ss)),
            q3: hd_sub(hd_mul(hd_mul(cp, ct), ss), hd_mul(hd_mul(sp, st), cs)),
        }
    }

    fn quat_inv(q: DualQuaternion<R>) -> DualQuaternion<R> {
        // The quaternions built from angles are unit quaternions for every
        // input, so the conjugate is the exact inverse.
        DualQuaternion {
            q0: q.q0,
            q1: hd_scale(q.q1, -1.0),
            q2: hd_scale(q.q2, -1.0),
            q3: hd_scale(q.q3, -1.0),
        }
    }

    fn quat_rotate(q: DualQuaternion<R>, v: DualVector<R>) -> DualVector<R> {
        let zero = hd(0.0, 0.0, 0.0, 0.0);
        let vq = DualQuaternion { q0: zero, q1: v.x, q2: v.y, q3: v.z };
        let conj = DualQuaternion {
            q0: q.q0,
            q1: hd_scale(q.q1, -1.0),
            q2: hd_scale(q.q2, -1.0),
            q3: hd_scale(q.q3, -1.0),
        };
        let rotated = quat_mul(quat_mul(q, vq), conj);
        DualVector { x: rotated.q1, y: rotated.q2, z: rotated.q3 }
    }
}

fn axes6(x: f64, y: f64, z: f64, phi: f64, theta: f64, psi: f64) -> AxisValues<R> {
    AxisValues {
        x: Some(R(x)),
        y: Some(R(y)),
        z: Some(R(z)),
        phi: Some(R(phi)),
        theta: Some(R(theta)),
        psi: Some(R(psi)),
    }
}

fn axes_xyz(x: f64, y: f64, z: f64) -> AxisValues<R> {
    AxisValues {
        x: Some(R(x)),
        y: Some(R(y)),
        z: Some(R(z)),
        phi: None,
        theta: None,
        psi: None,
    }
}

fn empty_axes() -> AxisValues<R> {
    AxisValues { x: None, y: None, z: None, phi: None, theta: None, psi: None }
}

/// Builds a system with one fix-base constraint between two objects placed
/// at the given coordinates, fixing the object's position axes at the given
/// offsets.
fn fix_base_system(
    obj: [f64; 6],
    reference: [f64; 6],
    target: AxisValues<R>,
    copies: usize,
) -> System<R> {
    let objects = vec![
        ("A".to_string(), axes6(obj[0], obj[1], obj[2], obj[3], obj[4], obj[5])),
        (
            "Base".to_string(),
            axes6(
                reference[0],
                reference[1],
                reference[2],
                reference[3],
                reference[4],
                reference[5],
            ),
        ),
    ];
    let mut requests = Vec::new();
    for _ in 0..copies {
        requests.push(ConstraintRequest::FixBase {
            object: "A".to_string(),
            reference: "Base".to_string(),
            parameters: target,
        });
    }
    let mut system = build_constraints(&objects, &requests).expect("build should succeed");
    system.add_indices();
    system
}

/// The objective value at a candidate vector.
fn objective(system: &mut System<R>, x: &Vec<R>) -> f64 {
    system.update_x(x);
    system.eval_real().0
}

/// The assembled gradient at a candidate vector.
fn gradient(system: &mut System<R>, x: &Vec<R>, n: usize) -> Vec<f64> {
    system.update_x(x);
    system.eval();
    let mut g = vec![R(0.0); n];
    system.grad(&mut g);
    g.iter().map(|v| v.0).collect()
}

/// The assembled Hessian at a candidate vector.
fn hessian(system: &mut System<R>, x: &Vec<R>, n: usize) -> Vec<Vec<f64>> {
    system.update_x(x);
    system.eval();
    let mut h = vec![vec![R(0.0); n]; n];
    system.hess(&mut h);
    h.iter().map(|row| row.iter().map(|v| v.0).collect()).collect()
}

/// A small deterministic pseudo-random stream for the randomized placements.
struct Lcg(u64);

impl Lcg {
    fn next_f64(&mut self, lo: f64, hi: f64) -> f64 {
        self.0 = self.0.wrapping_mul(6364136223846793005).wrapping_add(1442695040888963407);
        let unit = ((self.0 >> 11) as f64) / ((1u64 << 53) as f64);
        lo + (hi - lo) * unit
    }
}

#[test]
fn get_from_str_maps_all_names() {
    assert!(matches!(VariableName::get_from_str("x"), VariableName::x));
    assert!(matches!(VariableName::get_from_str("y"), VariableName::y));
    assert!(matches!(VariableName::get_from_str("z"), VariableName::z));
    assert!(matches!(VariableName::get_from_str("phi"), VariableName::phi));
    assert!(matches!(VariableName::get_from_str("theta"), VariableName::theta));
    assert!(matches!(VariableName::get_from_str("psi"), VariableName::psi));
}

#[test]
fn name_iterators_walk_the_fixed_order() {
    let mut it = VariableName::get_variable_iter();
    let mut seen = Vec::new();
    while let Some(name) = it.next() {
        seen.push(name);
    }
    assert_eq!(seen.len(), 6);
    assert!(matches!(seen[0], VariableName::x));
    assert!(matches!(seen[3], VariableName::phi));
    assert!(matches!(seen[5], VariableName::psi));

    let mut pos = VariableName::get_position_iter();
    let mut seen_pos = Vec::new();
    while let Some(name) = pos.next() {
        seen_pos.push(name);
    }
    assert_eq!(seen_pos.len(), 3);
    assert!(matches!(seen_pos[2], VariableName::z));

    let mut rot = VariableName::get_rotation_iter();
    let mut seen_rot = Vec::new();
    while let Some(name) = rot.next() {
        seen_rot.push(name);
    }
    assert_eq!(seen_rot.len(), 3);
    assert!(matches!(seen_rot[0], VariableName::phi));
}

#[test]
fn indices_contiguous_for_fully_enabled_object() {
    // An object with all six variables enabled and unlocked receives six
    // distinct, consecutive solver indices; a fully locked object receives
    // none.
    let objects = vec![
        ("A".to_string(), axes6(0.0, 0.0, 0.0, 0.0, 0.0, 0.0)),
        ("B".to_string(), axes6(1.0, 1.0, 1.0, 0.0, 0.0, 0.0)),
    ];
    let requests = vec![ConstraintRequest::Lock {
        object: "B".to_string(),
        parameters: axes6(1.0, 1.0, 1.0, 0.0, 0.0, 0.0),
    }];
    let mut system = build_constraints(&objects, &requests).expect("build");
    // Register object A too and enable everything on it by hand.
    assert!(system.add_object("A", &axes6(0.0, 0.0, 0.0, 0.0, 0.0, 0.0)).is_ok());
    let names = [
        VariableName::x,
        VariableName::y,
        VariableName::z,
        VariableName::phi,
        VariableName::theta,
        VariableName::psi,
    ];
    let a_idx = system.get_object_index("A").expect("A exists");
    system.sys_objects[a_idx].enable_variables(&names);
    system.add_indices();

    let mut indices: Vec<usize> = names
        .iter()
        .map(|n| system.sys_objects[a_idx].vars.get_variable(*n).index)
        .collect();
    let base = indices[0];
    for (k, idx) in indices.iter().enumerate() {
        assert_eq!(*idx, base + k, "indices must be consecutive");
    }
    indices.dedup();
    assert_eq!(indices.len(), 6, "indices must be distinct");
    // The locked object consumed nothing: the solver vector holds exactly
    // A's six variables.
    assert_eq!(system.get_solver_size(), 6);
    assert_eq!(system.start_position().len(), 6);
}

#[test]
fn enabled_size_counts_locked_variables_too() {
    let objects = vec![("B".to_string(), axes6(1.0, 1.0, 1.0, 0.0, 0.0, 0.0))];
    let requests = vec![ConstraintRequest::Lock {
        object: "B".to_string(),
        parameters: axes_xyz(1.0, 1.0, 1.0),
    }];
    let mut system = build_constraints(&objects, &requests).expect("build");
    system.add_indices();
    // Three locked (and thereby enabled) variables, none in the solver
    // vector.
    assert_eq!(system.get_enabled_size(), 3);
    assert_eq!(system.get_solver_size(), 0);
}

#[test]
fn aliased_variable_shares_index_and_initial_value() {
    // Whatever the registration order of the equality, after add_indices
    // the aliased variable carries its target's index and initial value.
    for equality_first in [true, false] {
        let objects = vec![
            ("A".to_string(), axes6(1.5, 0.0, 0.0, 0.0, 0.0, 0.0)),
            ("B".to_string(), axes6(7.0, 2.0, 0.0, 0.0, 0.0, 0.0)),
            ("Base".to_string(), axes6(0.0, 0.0, 0.0, 0.0, 0.0, 0.0)),
        ];
        let equality = ConstraintRequest::Equality {
            object1: "A".to_string(),
            object2: "B".to_string(),
            parameters: AxisValues { x: Some(R(0.0)), ..empty_axes() },
        };
        let fix = ConstraintRequest::FixBase {
            object: "A".to_string(),
            reference: "Base".to_string(),
            parameters: axes_xyz(1.0, 0.0, 0.0),
        };
        let requests = if equality_first {
            vec![equality, fix]
        } else {
            vec![fix, equality]
        };
        let mut system = build_constraints(&objects, &requests).expect("build");
        system.add_indices();
        let a = system.get_object_index("A").unwrap();
        let b = system.get_object_index("B").unwrap();
        let a_x = *system.sys_objects[a].vars.get_variable(VariableName::x);
        let b_x = *system.sys_objects[b].vars.get_variable(VariableName::x);
        assert!(b_x.equal.is_some());
        assert_eq!(a_x.index, b_x.index);
        assert_eq!(a_x.initial_value, b_x.initial_value);
        assert_eq!(b_x.initial_value.0, 1.5);
    }
}

#[test]
fn end_to_end_unit_offset_scenario() {
    // Object at the origin, reference at the origin, fix the object's
    // position at offsets (1, 0, 0): squared error 1, gradient -2 on the
    // object's x, Hessian 2 on (x, x), and zero Hessian coupling between
    // the object's x and the reference's rotations.
    let mut system = fix_base_system(
        [0.0; 6],
        [0.0; 6],
        axes_xyz(1.0, 0.0, 0.0),
        1,
    );
    let n = system.get_solver_size();
    assert_eq!(n, 9);
    let x0 = system.start_position();
    assert_eq!(objective(&mut system, &x0), 1.0);
    let g = gradient(&mut system, &x0, n);
    // Locals: A.x A.y A.z at 0..2, reference x y z phi theta psi at 3..8.
    assert_eq!(g[0], -2.0);
    assert_eq!(g[1], 0.0);
    assert_eq!(g[2], 0.0);
    let h = hessian(&mut system, &x0, n);
    assert_eq!(h[0][0], 2.0);
    // The reference's translations couple directly...
    assert_eq!(h[0][3], -2.0);
    // ...but at this symmetric configuration the rotations do not.
    assert_eq!(h[0][6], 0.0);
    assert_eq!(h[0][7], 0.0);
    assert_eq!(h[0][8], 0.0);
    // The Hessian is symmetric.
    for i in 0..n {
        for j in 0..n {
            assert_eq!(h[i][j], h[j][i]);
        }
    }
}

#[test]
fn double_registration_doubles_contributions() {
    // The same fix-base constraint registered twice contributes exactly
    // twice the gradient and Hessian of a single registration.
    let obj = [0.3, -0.4, 0.9, 0.1, -0.2, 0.25];
    let reference = [0.1, 0.2, -0.3, 0.05, 0.4, -0.15];
    let target = axes_xyz(1.0, -0.5, 0.25);
    let mut once = fix_base_system(obj, reference, target, 1);
    let mut twice = fix_base_system(obj, reference, target, 2);
    let n = once.get_solver_size();
    assert_eq!(twice.get_solver_size(), n);
    let x0 = once.start_position();
    let v1 = objective(&mut once, &x0);
    let v2 = objective(&mut twice, &x0);
    assert_eq!(v2, 2.0 * v1);
    let g1 = gradient(&mut once, &x0, n);
    let g2 = gradient(&mut twice, &x0, n);
    for k in 0..n {
        assert_eq!(g2[k], 2.0 * g1[k]);
    }
    let h1 = hessian(&mut once, &x0, n);
    let h2 = hessian(&mut twice, &x0, n);
    for k in 0..n {
        for l in 0..n {
            assert_eq!(h2[k][l], 2.0 * h1[k][l]);
        }
    }
}

#[test]
fn gradient_and_hessian_match_finite_differences() {
    // For a fix-base constraint with all nine local axes enabled, the
    // analytically extracted gradient and Hessian from one evaluation match
    // central finite differences of the scalar error, over several
    // randomized placements.
    let mut rng = Lcg(0x9e3779b97f4a7c15);
    for _ in 0..5 {
        let obj = [
            rng.next_f64(-2.0, 2.0),
            rng.next_f64(-2.0, 2.0),
            rng.next_f64(-2.0, 2.0),
            rng.next_f64(-1.0, 1.0),
            rng.next_f64(-1.0, 1.0),
            rng.next_f64(-1.0, 1.0),
        ];
        let reference = [
            rng.next_f64(-2.0, 2.0),
            rng.next_f64(-2.0, 2.0),
            rng.next_f64(-2.0, 2.0),
            rng.next_f64(-1.0, 1.0),
            rng.next_f64(-1.0, 1.0),
            rng.next_f64(-1.0, 1.0),
        ];
        let target = axes_xyz(
            rng.next_f64(-1.0, 1.0),
            rng.next_f64(-1.0, 1.0),
            rng.next_f64(-1.0, 1.0),
        );
        let mut system = fix_base_system(obj, reference, target, 1);
        let n = system.get_solver_size();
        assert_eq!(n, 9);
        let x0 = system.start_position();

        let g = gradient(&mut system, &x0, n);
        let h = hessian(&mut system, &x0, n);

        let step = 1e-4;
        let tol = 1e-6;
        for i in 0..n {
            let mut xp = x0.clone();
            xp[i] = R(xp[i].0 + step);
            let mut xm = x0.clone();
            xm[i] = R(xm[i].0 - step);
            let fd = (objective(&mut system, &xp) - objective(&mut system, &xm)) / (2.0 * step);
            let scale = 1.0_f64.max(g[i].abs());
            assert!(
                (g[i] - fd).abs() <= tol * scale,
                "gradient entry {} analytic {} vs fd {}",
                i,
                g[i],
                fd
            );
        }
        // A slightly larger step for the second differences balances the
        // truncation error against the roundoff of the four-point stencil.
        let hstep = 3e-4;
        for i in 0..n {
            for j in 0..n {
                let mut xpp = x0.clone();
                xpp[i] = R(xpp[i].0 + hstep);
                xpp[j] = R(xpp[j].0 + hstep);
                let mut xpm = x0.clone();
                xpm[i] = R(xpm[i].0 + hstep);
                xpm[j] = R(xpm[j].0 - hstep);
                let mut xmp = x0.clone();
                xmp[i] = R(xmp[i].0 - hstep);
                xmp[j] = R(xmp[j].0 + hstep);
                let mut xmm = x0.clone();
                xmm[i] = R(xmm[i].0 - hstep);
                xmm[j] = R(xmm[j].0 - hstep);
                let fd = (objective(&mut system, &xpp) - objective(&mut system, &xpm)
                    - objective(&mut system, &xmp) + objective(&mut system, &xmm))
                    / (4.0 * hstep * hstep);
                let scale = 1.0_f64.max(h[i][j].abs());
                assert!(
                    (h[i][j] - fd).abs() <= 1e-6 * scale,
                    "hessian entry ({}, {}) analytic {} vs fd {}",
                    i,
                    j,
                    h[i][j],
                    fd
                );
            }
        }
    }
}

#[test]
fn disabled_axis_contributes_to_no_global_cell() {
    // Constraining only x and y leaves the object's z variable disabled: it
    // receives no solver index, its row and column never appear in the
    // scatter, and its current value acts as a passive constant in the
    // residual.
    let target = AxisValues { x: Some(R(1.0)), y: Some(R(0.0)), ..empty_axes() };
    let mut system = fix_base_system([0.0, 0.0, 5.0, 0.0, 0.0, 0.0], [0.0; 6], target, 1);
    let n = system.get_solver_size();
    // Two object axes, plus the same two position axes and the three
    // rotations of the reference: the z axes of both bodies stay out.
    assert_eq!(n, 7);
    let a = system.get_object_index("A").unwrap();
    let z_var = *system.sys_objects[a].vars.get_variable(VariableName::z);
    assert!(!z_var.enabled);
    let x0 = system.start_position();
    // The disabled z axis contributes no residual: the error is the unit
    // offset on x alone, exactly as if z did not exist.
    assert_eq!(objective(&mut system, &x0), 1.0);
    let g = gradient(&mut system, &x0, n);
    assert_eq!(g[0], -2.0);
    let h = hessian(&mut system, &x0, n);
    assert_eq!(h[0][0], 2.0);
}

#[test]
fn cache_lookup_is_exact_transpose_of_swapped_pair() {
    // For an object with all orientation axes enabled, the (phi, theta)
    // and (theta, phi) lookups are exact e1/e2 transposes of each other,
    // bit for bit.
    let objects = vec![("A".to_string(), axes6(0.0, 0.0, 0.0, 0.4, -0.7, 1.1))];
    let requests = vec![ConstraintRequest::Lock {
        object: "A".to_string(),
        parameters: empty_axes(),
    }];
    let mut system = build_constraints(&objects, &requests).expect("build");
    let a = system.get_object_index("A").unwrap();
    let names = [VariableName::phi, VariableName::theta, VariableName::psi];
    system.sys_objects[a].enable_variables(&names);
    system.sys_objects[a].q_enable = true;
    system.add_indices();
    system.sys_objects[a].update_q();

    let pt = system.sys_objects[a].get_quaternion(
        Some(VariableName::phi),
        Some(VariableName::theta),
    );
    let tp = system.sys_objects[a].get_quaternion(
        Some(VariableName::theta),
        Some(VariableName::phi),
    );
    let swapped = |q: HyperDual<R>| HyperDual { re: q.re, e1: q.e2, e2: q.e1, e1e2: q.e1e2 };
    assert_eq!(pt.q0, swapped(tp.q0));
    assert_eq!(pt.q1, swapped(tp.q1));
    assert_eq!(pt.q2, swapped(tp.q2));
    assert_eq!(pt.q3, swapped(tp.q3));
    // The sensitivities are real: the channels are not all zero.
    assert!(pt.q0.e1.0 != 0.0 || pt.q1.e1.0 != 0.0 || pt.q2.e1.0 != 0.0 || pt.q3.e1.0 != 0.0);

    // The same holds on the position-vector side for (x, y) and (y, x).
    let pos_names = [VariableName::x, VariableName::y, VariableName::z];
    system.sys_objects[a].enable_variables(&pos_names);
    system.sys_objects[a].v_enable = true;
    system.sys_objects[a].update_v();
    let xy = system.sys_objects[a].get_vector(Some(VariableName::x), Some(VariableName::y));
    let yx = system.sys_objects[a].get_vector(Some(VariableName::y), Some(VariableName::x));
    assert_eq!(xy.x, swapped(yx.x));
    assert_eq!(xy.y, swapped(yx.y));
    assert_eq!(xy.z, swapped(yx.z));
}

#[test]
fn missing_object_is_reported() {
    let objects = vec![("A".to_string(), axes6(0.0, 0.0, 0.0, 0.0, 0.0, 0.0))];
    let requests = vec![ConstraintRequest::FixBase {
        object: "A".to_string(),
        reference: "Ghost".to_string(),
        parameters: axes_xyz(1.0, 0.0, 0.0),
    }];
    match build_constraints(&objects, &requests) {
        Err(BuildError::MissingObject { name }) => assert_eq!(name, "Ghost"),
        other => panic!("expected a missing-object error, got {:?}", other.is_ok()),
    }
}

#[test]
fn missing_axis_is_reported() {
    let incomplete = AxisValues {
        x: Some(R(0.0)),
        y: Some(R(0.0)),
        z: Some(R(0.0)),
        phi: Some(R(0.0)),
        theta: Some(R(0.0)),
        psi: None,
    };
    let objects = vec![
        ("A".to_string(), incomplete),
        ("Base".to_string(), axes6(0.0, 0.0, 0.0, 0.0, 0.0, 0.0)),
    ];
    let requests = vec![ConstraintRequest::FixBase {
        object: "A".to_string(),
        reference: "Base".to_string(),
        parameters: axes_xyz(1.0, 0.0, 0.0),
    }];
    match build_constraints(&objects, &requests) {
        Err(BuildError::MissingAxis { object, axis }) => {
            assert_eq!(object, "A");
            assert!(matches!(axis, VariableName::psi));
        },
        other => panic!("expected a missing-axis error, got {:?}", other.is_ok()),
    }
}

#[test]
fn duplicate_object_registration_is_a_no_op() {
    let mut system = System::<R>::new();
    assert!(system.add_object("A", &axes6(1.0, 2.0, 3.0, 0.0, 0.0, 0.0)).is_ok());
    assert!(system.add_object("A", &axes6(9.0, 9.0, 9.0, 0.0, 0.0, 0.0)).is_ok());
    assert_eq!(system.sys_objects.len(), 1);
    let a = system.get_object_index("A").unwrap();
    assert_eq!(system.sys_objects[a].vars.get_variable(VariableName::x).value.0, 1.0);
}

#[test]
fn locked_variable_keeps_its_value_through_updates() {
    let objects = vec![
        ("A".to_string(), axes6(0.0, 0.0, 0.0, 0.0, 0.0, 0.0)),
        ("Base".to_string(), axes6(0.0, 0.0, 0.0, 0.0, 0.0, 0.0)),
    ];
    let requests = vec![
        ConstraintRequest::FixBase {
            object: "A".to_string(),
            reference: "Base".to_string(),
            parameters: axes_xyz(1.0, 0.0, 0.0),
        },
        ConstraintRequest::Lock {
            object: "Base".to_string(),
            parameters: AxisValues { phi: Some(R(0.25)), ..empty_axes() },
        },
    ];
    let mut system = build_constraints(&objects, &requests).expect("build");
    system.add_indices();
    let n = system.get_solver_size();
    // The reference's phi is locked: 3 object axes + 5 reference axes.
    assert_eq!(n, 8);
    let x0 = system.start_position();
    let _ = objective(&mut system, &x0);
    let base = system.get_object_index("Base").unwrap();
    let phi = *system.sys_objects[base].vars.get_variable(VariableName::phi);
    assert!(phi.locked && phi.enabled);
    assert_eq!(phi.value.0, 0.25);
}

#[test]
fn constant_lookup_zeroes_the_requested_channel() {
    // Serving a (variable, constant) request zeroes the second channel of
    // the stored entry, and a (constant, constant) request zeroes all
    // three; the real parts always survive.
    let objects = vec![("A".to_string(), axes6(2.0, 3.0, 4.0, 0.0, 0.0, 0.0))];
    let requests: Vec<ConstraintRequest<R>> = Vec::new();
    let mut system = build_constraints(&objects, &requests).expect("build");
    assert!(system.add_object("A", &axes6(2.0, 3.0, 4.0, 0.0, 0.0, 0.0)).is_ok());
    let a = system.get_object_index("A").unwrap();
    let pos_names = [VariableName::x, VariableName::y, VariableName::z];
    system.sys_objects[a].enable_variables(&pos_names);
    system.add_indices();
    system.sys_objects[a].update_v();

    let x_const = system.sys_objects[a].get_vector(Some(VariableName::x), None);
    assert_eq!(x_const.x.re.0, 2.0);
    assert_eq!(x_const.x.e1.0, 1.0);
    assert_eq!(x_const.x.e2.0, 0.0);
    assert_eq!(x_const.x.e1e2.0, 0.0);
    assert_eq!(x_const.y.e1.0, 0.0);

    let const_x = system.sys_objects[a].get_vector(None, Some(VariableName::x));
    assert_eq!(const_x.x.e1.0, 0.0);
    assert_eq!(const_x.x.e2.0, 1.0);

    let const_const = system.sys_objects[a].get_vector(None, None);
    assert_eq!(const_const.x.re.0, 2.0);
    assert_eq!(const_const.y.re.0, 3.0);
    assert_eq!(const_const.z.re.0, 4.0);
    assert_eq!(const_const.x.e1.0, 0.0);
    assert_eq!(const_const.x.e2.0, 0.0);
    assert_eq!(const_const.x.e1e2.0, 0.0);

    // A rotation name asked of the position cache counts as a constant.
    let phi_lookup = system.sys_objects[a].get_vector(Some(VariableName::phi), None);
    assert_eq!(phi_lookup.x.e1.0, 0.0);
}

#[test]
fn axis_values_set_and_get() {
    let mut p: AxisValues<R> = AxisValues {
        x: None,
        y: None,
        z: None,
        phi: None,
        theta: None,
        psi: None,
    };
    assert!(p.get(VariableName::theta).is_none());
    p.set(VariableName::theta, R(0.5));
    assert_eq!(p.get(VariableName::theta), Some(R(0.5)));
    assert!(p.get(VariableName::x).is_none());
}

#[test]
fn fix_parameters_ignore_rotation_names() {
    let mut p: FixParameters<R> = FixParameters::new();
    p.set_parameter(VariableName::x, R(1.25));
    p.set_parameter(VariableName::phi, R(9.0));
    assert_eq!(p.x, R(1.25));
    assert_eq!(p.y, R(0.0));
    assert_eq!(p.z, R(0.0));
}

#[test]
fn diff_is_the_zero_of_the_algebra() {
    let system = System::<R>::new();
    assert_eq!(system.diff(), R(0.0));
}

#[test]
fn self_reference_is_reported_for_fix_base() {
    let objects = vec![("A".to_string(), axes6(0.0, 0.0, 0.0, 0.0, 0.0, 0.0))];
    let requests = vec![ConstraintRequest::FixBase {
        object: "A".to_string(),
        reference: "A".to_string(),
        parameters: axes_xyz(1.0, 0.0, 0.0),
    }];
    match build_constraints(&objects, &requests) {
        Err(BuildError::SelfReference { name }) => assert_eq!(name, "A"),
        other => panic!("expected a self-reference error, got {:?}", other.is_ok()),
    }
}

#[test]
fn self_reference_is_reported_for_equality() {
    let objects = vec![("A".to_string(), axes6(0.0, 0.0, 0.0, 0.0, 0.0, 0.0))];
    let requests = vec![ConstraintRequest::Equality {
        object1: "A".to_string(),
        object2: "A".to_string(),
        parameters: AxisValues { x: Some(R(0.0)), ..empty_axes() },
    }];
    match build_constraints(&objects, &requests) {
        Err(BuildError::SelfReference { name }) => assert_eq!(name, "A"),
        other => panic!("expected a self-reference error, got {:?}", other.is_ok()),
    }
}
