use ray::ray::Ray;
use ray::scalar::Scalar;
use ray::shapes::sphere::Sphere;
use ray::shapes::sphere::SphereIntersection;
use ray::shapes::sphere::SphereProducts;
use ray::shapes::Traceable;
use ray::vector::UnitVector3;
use ray::vector::Vector3;

fn scalar(x: f32) -> Scalar {
    Scalar::from_bits(x.to_bits())
}

fn number(s: Scalar) -> f32 {
    f32::from_bits(s.to_bits())
}

fn vector(v: &nalgebra::Vector3<f32>) -> Vector3 {
    Vector3::new(scalar(v.x), scalar(v.y), scalar(v.z))
}

fn floats(v: &Vector3) -> nalgebra::Vector3<f32> {
    nalgebra::Vector3::new(number(v.x), number(v.y), number(v.z))
}

fn unit(v: nalgebra::Vector3<f32>) -> UnitVector3 {
    UnitVector3::new_unchecked(vector(&nalgebra::UnitVector3::new_normalize(v).into_inner()))
}

fn of(discriminant: f32, dir_dot_dist: f32) -> SphereProducts {
    let disc_sqrt = discriminant.sqrt();
    SphereProducts {
        discriminant: scalar(discriminant),
        tangent: scalar(-dir_dot_dist),
        far: scalar(-dir_dot_dist + disc_sqrt),
        near: scalar(-dir_dot_dist - disc_sqrt),
    }
}

fn products(sphere: &Sphere, ray: &Ray) -> SphereProducts {
    let center_dist = floats(ray.origin()) - floats(sphere.origin());
    let dir_dot_dist = floats(ray.direction()).dot(&center_dist);
    let discriminant =
        dir_dot_dist.powi(2) - (center_dist.dot(&center_dist) - number(sphere.radius()).powi(2));
    of(discriminant, dir_dot_dist)
}

#[derive(Debug)]
enum Expected {
    Two(f32, f32),
    One(f32),
    Miss,
}

fn close(float: f32, epsilon: f32) -> bool {
    float.abs() <= epsilon
}

fn expected_intersection(discriminant: f32, dir_dot_dist: f32, epsilon: f32) -> Expected {
    if discriminant < 0. {
        return Expected::Miss;
    }
    if close(discriminant, epsilon) {
        return Expected::One(-dir_dot_dist);
    }
    let disc_sqrt = discriminant.sqrt();
    Expected::Two(-dir_dot_dist + disc_sqrt, -dir_dot_dist - disc_sqrt)
}

fn expected_trace(found: &Expected) -> Option<f32> {
    match *found {
        Expected::Two(a, b) => match (a >= 0., b >= 0.) {
            (true, true) => Some(a.min(b)),
            (true, false) => Some(a),
            (false, true) => Some(b),
            (false, false) => None,
        },
        Expected::One(a) if a >= 0. => Some(a),
        _ => None,
    }
}

fn same(found: &SphereIntersection, expected: &Expected) -> bool {
    match (found, expected) {
        (SphereIntersection::Two(a, b), Expected::Two(c, d)) => {
            a.to_bits() == c.to_bits() && b.to_bits() == d.to_bits()
        }
        (SphereIntersection::One(a), Expected::One(b)) => a.to_bits() == b.to_bits(),
        (SphereIntersection::Miss, Expected::Miss) => true,
        _ => false,
    }
}

fn samples() -> Vec<f32> {
    vec![
        0.0,
        -0.0,
        f32::from_bits(1),
        -f32::from_bits(1),
        0.00009,
        0.0001,
        -0.0001,
        0.00011,
        0.25,
        1.0,
        -1.0,
        4.0,
        -4.0,
        1000.0,
        -1000.0,
        1000000.0,
        f32::MAX,
        f32::INFINITY,
        f32::NEG_INFINITY,
        f32::NAN,
        f32::from_bits(0xffc0_0000),
    ]
}

#[test]
fn sphere_of_radius_zero_is_a_sphere() {
    let sphere = Sphere::new(Vector3::new(scalar(0.0), scalar(0.0), scalar(5.0)), scalar(0.0));
    assert_eq!(number(sphere.radius()), 0.0);
    let ray = Ray::new(
        vector(&nalgebra::Vector3::new(0., 0., 0.)),
        unit(nalgebra::Vector3::new(0., 0., 1.)),
    );
    let products = products(&sphere, &ray);
    match products.ray_intersection(scalar(0.0001)) {
        SphereIntersection::One(distance) => assert_eq!(number(distance), 5.0),
        other => panic!("{other:?}"),
    }
    assert_eq!(number(products.trace(scalar(0.0001)).unwrap()), 5.0);
}

#[test]
fn sphere_keeps_its_fields() {
    let sphere = Sphere::new(Vector3::new(scalar(1.0), scalar(1.5), scalar(900.0)), scalar(2.5));
    assert_eq!(number(sphere.origin().x), 1.0);
    assert_eq!(number(sphere.origin().y), 1.5);
    assert_eq!(number(sphere.origin().z), 900.0);
    assert_eq!(number(sphere.radius()), 2.5);
}

#[test]
fn sphere_cases_agree_with_the_rounded_arithmetic() {
    for epsilon in [0.0001f32, 0.5, 1000.0, f32::INFINITY] {
        for discriminant in samples() {
            for dir_dot_dist in samples() {
                let found = of(discriminant, dir_dot_dist).ray_intersection(scalar(epsilon));
                let expected = expected_intersection(discriminant, dir_dot_dist, epsilon);
                assert!(
                    same(&found, &expected),
                    "{discriminant}, {dir_dot_dist} at {epsilon}: {found:?}, not {expected:?}"
                );
            }
        }
    }
}

#[test]
fn sphere_trace_agrees_with_the_rounded_arithmetic() {
    for epsilon in [0.0001f32, 0.5, 1000.0, f32::INFINITY] {
        for discriminant in samples() {
            for dir_dot_dist in samples() {
                let products = of(discriminant, dir_dot_dist);
                let expected =
                    expected_trace(&expected_intersection(discriminant, dir_dot_dist, epsilon));
                let found = products.trace(scalar(epsilon));
                match (found, expected) {
                    (Some(a), Some(b)) => assert!(
                        a.to_bits() == b.to_bits() || (number(a) == 0.0 && b == 0.0),
                        "{discriminant}, {dir_dot_dist} at {epsilon}: {a:?}, not {b}"
                    ),
                    (None, None) => {}
                    (a, b) => panic!("{discriminant}, {dir_dot_dist} at {epsilon}: {a:?}, not {b:?}"),
                }
            }
        }
    }
}

#[test]
fn sphere_first_hit_takes_the_smaller_crossing_ahead() {
    let both = SphereIntersection::Two(scalar(1001.0), scalar(999.0));
    assert_eq!(number(both.first_hit().unwrap()), 999.0);
    let swapped = SphereIntersection::Two(scalar(999.0), scalar(1001.0));
    assert_eq!(number(swapped.first_hit().unwrap()), 999.0);
    let equal = SphereIntersection::Two(scalar(7.0), scalar(7.0));
    assert_eq!(number(equal.first_hit().unwrap()), 7.0);
}

#[test]
fn sphere_first_hit_from_inside_is_the_crossing_ahead() {
    let inside = SphereIntersection::Two(scalar(3.0), scalar(-5.0));
    assert_eq!(number(inside.first_hit().unwrap()), 3.0);
    let reversed = SphereIntersection::Two(scalar(-5.0), scalar(3.0));
    assert_eq!(number(reversed.first_hit().unwrap()), 3.0);
}

#[test]
fn sphere_behind_the_origin_is_no_hit() {
    assert!(SphereIntersection::Two(scalar(-1.0), scalar(-3.0)).first_hit().is_none());
    assert!(SphereIntersection::One(scalar(-2.0)).first_hit().is_none());
    assert!(SphereIntersection::Miss.first_hit().is_none());
    assert!(SphereIntersection::Two(scalar(f32::NAN), scalar(f32::NAN)).first_hit().is_none());
    assert!(SphereIntersection::One(scalar(f32::NAN)).first_hit().is_none());
}

#[test]
fn sphere_tangent_hit() {
    assert_eq!(number(SphereIntersection::One(scalar(2.0)).first_hit().unwrap()), 2.0);
    assert_eq!(number(SphereIntersection::One(scalar(0.0)).first_hit().unwrap()), 0.0);
    let products = of(0.00005, -12.0);
    match products.ray_intersection(scalar(0.0001)) {
        SphereIntersection::One(distance) => assert_eq!(number(distance), 12.0),
        other => panic!("{other:?}"),
    }
    assert_eq!(number(products.trace(scalar(0.0001)).unwrap()), 12.0);
}

#[test]
fn sphere_negative_discriminant_misses_at_any_tolerance() {
    for epsilon in [0.0001f32, 1.0, 1000.0] {
        let products = of(-0.00005, -12.0);
        assert!(matches!(
            products.ray_intersection(scalar(epsilon)),
            SphereIntersection::Miss
        ));
        assert!(products.trace(scalar(epsilon)).is_none());
    }
}

#[test]
fn unit_sphere_a_thousand_ahead() {
    let sphere = Sphere::new(vector(&nalgebra::Vector3::new(0., 0., 1000.)), scalar(1.));
    let ray = Ray::new(
        vector(&nalgebra::Vector3::new(0., 0., 0.)),
        unit(nalgebra::Vector3::new(0., 0., 1.)),
    );
    let products = products(&sphere, &ray);
    let epsilon = 0.0001;
    match products.ray_intersection(scalar(epsilon)) {
        SphereIntersection::Two(far, near) => {
            assert_eq!(number(far), 1001.0);
            assert_eq!(number(near), 999.0);
            for distance in [number(far), number(near)] {
                let point = floats(ray.origin()) + distance * floats(ray.direction());
                let from_center = (point - floats(sphere.origin())).norm();
                assert!((from_center - number(sphere.radius())).abs() <= epsilon);
            }
        }
        other => panic!("{other:?}"),
    }
    assert_eq!(number(products.trace(scalar(epsilon)).unwrap()), 999.0);
}

#[test]
fn sphere_off_the_axis_is_missed() {
    let sphere = Sphere::new(vector(&nalgebra::Vector3::new(1., 1.5, 900.)), scalar(1.));
    let ray = Ray::new(
        vector(&nalgebra::Vector3::new(0., 0., 0.)),
        unit(nalgebra::Vector3::new(0., 0., 1.)),
    );
    let products = products(&sphere, &ray);
    assert!(matches!(
        products.ray_intersection(scalar(0.0001)),
        SphereIntersection::Miss
    ));
    assert!(products.trace(scalar(0.0001)).is_none());
}

#[test]
fn wider_tolerance_keeps_a_sphere_miss() {
    let behind = of(4.0, 10.0);
    let beside = of(-4.0, -10.0);
    for (narrow, wide) in [(0.0001f32, 0.01f32), (0.01, 1.0), (0.0001, 3.5)] {
        assert!(behind.trace(scalar(narrow)).is_none());
        assert!(behind.trace(scalar(wide)).is_none());
        assert!(beside.trace(scalar(narrow)).is_none());
        assert!(beside.trace(scalar(wide)).is_none());
    }
}
