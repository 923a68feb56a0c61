use sputils::{
    compose, earth_rotation, polar_motion, polar_motion_matrix, teme_to_itrs_matrix_rotations,
    teme_to_itrs_rotations, transposed, without_sources, Angle, AngleSource, Axis, Rotation,
    ITRS, TEME,
};

type Mat = [[f64; 3]; 3];

struct Orientation {
    gmst: f64,
    xp: f64,
    yp: f64,
}

fn rot(axis: Axis, source: AngleSource, negated: bool) -> Rotation {
    Rotation { axis, angle: Angle { source, negated } }
}

fn angle_value(a: &Angle, o: &Orientation) -> f64 {
    let v = match a.source {
        AngleSource::PolarX => o.xp,
        AngleSource::PolarY => o.yp,
        AngleSource::SiderealTime => o.gmst,
    };
    if a.negated {
        -v
    } else {
        v
    }
}

fn elemental(axis: Axis, a: f64) -> Mat {
    let (s, c) = a.sin_cos();
    match axis {
        Axis::X => [[1.0, 0.0, 0.0], [0.0, c, s], [0.0, -s, c]],
        Axis::Y => [[c, 0.0, -s], [0.0, 1.0, 0.0], [s, 0.0, c]],
        Axis::Z => [[c, s, 0.0], [-s, c, 0.0], [0.0, 0.0, 1.0]],
    }
}

fn mul(a: &Mat, b: &Mat) -> Mat {
    let mut r = [[0.0; 3]; 3];
    for i in 0..3 {
        for j in 0..3 {
            for k in 0..3 {
                r[i][j] += a[i][k] * b[k][j];
            }
        }
    }
    r
}

fn transpose(a: &Mat) -> Mat {
    let mut r = [[0.0; 3]; 3];
    for i in 0..3 {
        for j in 0..3 {
            r[i][j] = a[j][i];
        }
    }
    r
}

fn apply(a: &Mat, v: [f64; 3]) -> [f64; 3] {
    let mut r = [0.0; 3];
    for i in 0..3 {
        for k in 0..3 {
            r[i] += a[i][k] * v[k];
        }
    }
    r
}

fn evaluate(chain: &[Rotation], o: &Orientation) -> Mat {
    let mut m = [[1.0, 0.0, 0.0], [0.0, 1.0, 0.0], [0.0, 0.0, 1.0]];
    for r in chain {
        m = mul(&m, &elemental(r.axis, angle_value(&r.angle, o)));
    }
    m
}

fn norm(v: [f64; 3]) -> f64 {
    (v[0] * v[0] + v[1] * v[1] + v[2] * v[2]).sqrt()
}

fn close_mat(a: &Mat, b: &Mat, tol: f64) -> bool {
    (0..3).all(|i| (0..3).all(|j| (a[i][j] - b[i][j]).abs() <= tol))
}

const J2000_GMST: f64 = 4.894961212823059;

#[test]
fn transpose_negates_angle_and_keeps_axis() {
    let r = rot(Axis::Y, AngleSource::PolarY, true);
    assert_eq!(r.transpose(), rot(Axis::Y, AngleSource::PolarY, false));
}

#[test]
fn transposed_reverses_and_negates() {
    let c = teme_to_itrs_rotations();
    let t = transposed(&c);
    assert_eq!(
        t,
        vec![
            rot(Axis::Z, AngleSource::SiderealTime, false),
            rot(Axis::Y, AngleSource::PolarY, false),
            rot(Axis::X, AngleSource::PolarX, false),
        ]
    );
    assert_eq!(transposed(&t), c);
    assert!(transposed(&Vec::new()).is_empty());
}

#[test]
fn compose_with_transpose_is_identity() {
    let c = teme_to_itrs_rotations();
    assert!(compose(&c, &transposed(&c)).is_empty());
    assert!(compose(&transposed(&c), &c).is_empty());
    let m = teme_to_itrs_matrix_rotations();
    assert!(compose(&m, &transposed(&m)).is_empty());
}

#[test]
fn compose_cancels_only_neighbours() {
    let a = rot(Axis::X, AngleSource::PolarX, true);
    let b = rot(Axis::Y, AngleSource::PolarY, true);
    let c = rot(Axis::Z, AngleSource::SiderealTime, false);
    assert_eq!(compose(&vec![a, b], &vec![b.transpose(), c]), vec![a, c]);
    assert_eq!(compose(&vec![a, b], &vec![a.transpose()]), vec![a, b, a.transpose()]);
    assert_eq!(compose(&vec![a, a.transpose(), b], &vec![]), vec![b]);
    assert!(compose(&vec![], &vec![]).is_empty());
}

#[test]
fn direct_transform_order_and_signs() {
    assert_eq!(
        polar_motion(),
        vec![rot(Axis::X, AngleSource::PolarX, true), rot(Axis::Y, AngleSource::PolarY, true)]
    );
    assert_eq!(earth_rotation(), vec![rot(Axis::Z, AngleSource::SiderealTime, true)]);
    assert_eq!(
        teme_to_itrs_rotations(),
        vec![
            rot(Axis::X, AngleSource::PolarX, true),
            rot(Axis::Y, AngleSource::PolarY, true),
            rot(Axis::Z, AngleSource::SiderealTime, true),
        ]
    );
}

#[test]
fn matrix_transform_order_and_signs() {
    assert_eq!(
        polar_motion_matrix(),
        vec![
            rot(Axis::X, AngleSource::PolarY, true),
            rot(Axis::Y, AngleSource::PolarX, true),
        ]
    );
    assert_eq!(
        teme_to_itrs_matrix_rotations(),
        vec![
            rot(Axis::X, AngleSource::PolarY, true),
            rot(Axis::Y, AngleSource::PolarX, true),
            rot(Axis::Z, AngleSource::SiderealTime, true),
        ]
    );
}

#[test]
fn without_sources_drops_zero_polar_motion() {
    let zero = vec![AngleSource::PolarX, AngleSource::PolarY];
    let d = without_sources(&teme_to_itrs_rotations(), &zero);
    let m = without_sources(&teme_to_itrs_matrix_rotations(), &zero);
    assert_eq!(d, vec![rot(Axis::Z, AngleSource::SiderealTime, true)]);
    assert_eq!(m, d);
    assert_eq!(without_sources(&d, &vec![]), d);
}

#[test]
fn elemental_rotations_are_orthonormal() {
    let o = Orientation { gmst: 0.0, xp: 0.0, yp: 0.0 };
    let id = evaluate(&[], &o);
    for axis in [Axis::X, Axis::Y, Axis::Z] {
        for k in -8..=8 {
            let theta = (k as f64) * std::f64::consts::PI / 4.0 + 0.1;
            let theta = theta.clamp(-2.0 * std::f64::consts::PI, 2.0 * std::f64::consts::PI);
            let m = elemental(axis, theta);
            assert!(close_mat(&mul(&m, &transpose(&m)), &id, 1e-9));
            let r = rot(axis, AngleSource::SiderealTime, false);
            let ot = Orientation { gmst: theta, xp: 0.0, yp: 0.0 };
            let tm = evaluate(&transposed(&vec![r]), &ot);
            assert!(close_mat(&tm, &transpose(&m), 1e-12));
        }
    }
}

#[test]
fn teme_to_itrs_preserves_norm() {
    let o = Orientation { gmst: 1.234, xp: 1.1e-6, yp: 2.3e-6 };
    let m = evaluate(&teme_to_itrs_rotations(), &o);
    let p = TEME([6524.834, 6862.875, 6448.296]);
    let q = ITRS(apply(&m, p.0));
    assert!((norm(q.0) - norm(p.0)).abs() <= 1e-6 * norm(p.0));
}

#[test]
fn transpose_recovers_input_vector() {
    let o = Orientation { gmst: 3.0, xp: 1.0e-6, yp: -4.0e-7 };
    let c = teme_to_itrs_rotations();
    let m = evaluate(&c, &o);
    let back = evaluate(&transposed(&c), &o);
    assert!(close_mat(&back, &transpose(&m), 1e-12));
    let p = [7000.0, -1200.5, 300.25];
    let r = apply(&back, apply(&m, p));
    for i in 0..3 {
        assert!((r[i] - p[i]).abs() <= 1e-6);
    }
}

#[test]
fn zero_vector_maps_to_zero() {
    let o = Orientation { gmst: 2.0, xp: 3.0e-7, yp: 1.0e-6 };
    let m = evaluate(&teme_to_itrs_rotations(), &o);
    assert_eq!(apply(&m, [0.0, 0.0, 0.0]), [0.0, 0.0, 0.0]);
}

#[test]
fn zero_polar_motion_matrix_matches_direct_transform() {
    let o = Orientation { gmst: 0.75, xp: 0.0, yp: 0.0 };
    let p = [7000.0, -1200.5, 300.25];
    let d = apply(&evaluate(&teme_to_itrs_rotations(), &o), p);
    let m = apply(&evaluate(&teme_to_itrs_matrix_rotations(), &o), p);
    for i in 0..3 {
        assert!((m[i] - d[i]).abs() <= 1e-6);
    }
    let j = Orientation { gmst: J2000_GMST, xp: 0.0, yp: 0.0 };
    let dj = evaluate(&teme_to_itrs_rotations(), &j);
    let mj = evaluate(&teme_to_itrs_matrix_rotations(), &j);
    assert!(close_mat(&mj, &dj, 1e-12));
}

#[test]
fn j2000_epoch_rotates_about_z_only() {
    let o = Orientation { gmst: J2000_GMST, xp: 0.0, yp: 0.0 };
    let m = evaluate(&teme_to_itrs_rotations(), &o);
    let q = ITRS(apply(&m, TEME([7000.0, 0.0, 0.0]).0));
    assert!((q.0[0] - 1270.918).abs() < 1e-3);
    assert!((q.0[1] - (-6883.660)).abs() < 1e-3);
    assert!(q.0[2].abs() < 1e-12);
}
