use minephysics::scalar::root;
use minephysics::vector::{normalize, Vector2};

/// Equal up to one rounding step of the larger of the two.
fn relative_eq(a: f32, b: f32) -> bool {
    if a == b {
        return true;
    }
    if a.is_infinite() || b.is_infinite() {
        return false;
    }
    let diff = (a - b).abs();
    diff <= f32::EPSILON || diff <= a.abs().max(b.abs()) * f32::EPSILON
}

#[test]
fn test_normalize() {
    let vec = Vector2::new(10.0, 0.0);
    let norm = normalize(&vec, &f32::sqrt);
    assert!(relative_eq(norm.x, 1.0));
    assert!(relative_eq(norm.y, 0.0));

    let vec = Vector2::new(3.0, 4.0);
    let norm = normalize(&vec, &f32::sqrt);
    assert!(relative_eq(norm.x, 0.6));
    assert!(relative_eq(norm.y, 0.8));
}

#[test]
fn normalize_keeps_direction_and_gives_length_one() {
    let norm = normalize(&Vector2::new(0.0f32, -7.5), &f32::sqrt);
    assert_eq!(norm, Vector2::new(0.0, -1.0));
    let norm = normalize(&Vector2::new(-8.0f32, 6.0), &f32::sqrt);
    assert_eq!(norm, Vector2::new(-0.8, 0.6));
    assert!(relative_eq(norm.length_sq(), 1.0));
}

#[test]
fn normalize_divides_by_the_given_root() {
    // With a "root" that always says 2, normalizing halves the vector.
    let norm = normalize(&Vector2::new(3.0f32, 4.0), &|_x: f32| 2.0);
    assert_eq!(norm, Vector2::new(1.5, 2.0));
    // The root is taken of the squared length.
    let norm = normalize(&Vector2::new(3.0f32, 4.0), &|x: f32| x);
    assert_eq!(norm, Vector2::new(3.0 / 25.0, 4.0 / 25.0));
}

#[test]
fn normalize_of_the_zero_vector_is_not_a_number() {
    // Nothing guards the division here: the callers skip zero distances.
    let norm = normalize(&Vector2::new(0.0f32, 0.0), &f32::sqrt);
    assert!(norm.x.is_nan());
    assert!(norm.y.is_nan());
}

#[test]
fn root_applies_the_function() {
    assert_eq!(root(&f32::sqrt, 25.0), 5.0);
    assert_eq!(root(&|x: f32| x + 1.0, 25.0), 26.0);
}

#[test]
fn vector_new_sets_both_coordinates() {
    let v = Vector2::new(16.5f32, 24.0);
    assert_eq!(v.x, 16.5);
    assert_eq!(v.y, 24.0);
}

#[test]
fn vector_from_a_pair() {
    let v: Vector2<u16> = Vector2::from((69u16, 420u16));
    assert_eq!(v.x, 69);
    assert_eq!(v.y, 420);
    let w: Vector2<f32> = (1.5, -2.5).into();
    assert_eq!(w, Vector2::new(1.5, -2.5));
}

#[test]
fn vector_plus_is_component_wise() {
    assert_eq!(Vector2::new(9, 10).plus(Vector2::new(10, 9)), Vector2::new(19, 19));
    assert_eq!(Vector2::new(1.5f32, -2.0).plus(Vector2::new(0.25, 4.0)), Vector2::new(1.75, 2.0));
}

#[test]
fn vector_minus_is_component_wise() {
    assert_eq!(Vector2::new(9, 10).minus(Vector2::new(10, 9)), Vector2::new(-1, 1));
    assert_eq!(Vector2::new(1.5f32, -2.0).minus(Vector2::new(0.25, 4.0)), Vector2::new(1.25, -6.0));
}

#[test]
fn vector_times_scales_both_coordinates() {
    assert_eq!(Vector2::new(9, 10).times(420), Vector2::new(3780, 4200));
    assert_eq!(Vector2::new(1.5f32, -2.0).times(0.5), Vector2::new(0.75, -1.0));
}

#[test]
fn vector_over_divides_both_coordinates() {
    assert_eq!(Vector2::new(9, 10).over(3), Vector2::new(3, 3));
    assert_eq!(Vector2::new(1.5f32, -2.0).over(4.0), Vector2::new(0.375, -0.5));
}

#[test]
fn vector_length_sq_is_the_sum_of_squares() {
    assert_eq!(Vector2::new(10, 9).length_sq(), 181);
    assert_eq!(Vector2::new(3.0f32, 4.0).length_sq(), 25.0);
    assert_eq!(Vector2::new(0.0f32, 0.0).length_sq(), 0.0);
}

#[test]
fn vector_is_copied_not_moved() {
    let v = Vector2::new(1.0f32, 2.0);
    let w = v;
    let u = v.clone();
    assert_eq!(v, w);
    assert_eq!(v, u);
}
