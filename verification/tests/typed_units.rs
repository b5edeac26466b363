use typed_units::geom::{Length, TypedPoint2, TypedVector2};
use typed_units::Typed;

struct Meters;

#[test]
fn test_operations() {
    let pos: TypedPoint2<i32, ()> = TypedPoint2::new(1, 2);
    let vec: TypedVector2<i32, ()> = TypedVector2::new(2, 2);
    assert!(pos + vec == TypedPoint2::new(3, 4));
}

#[test]
fn round_trip_scalar() {
    let lifted: Typed<i32, Meters> = Typed::from_untyped(17);
    assert_eq!(lifted.to_untyped(), 17);
}

#[test]
fn round_trip_point() {
    let raw = cgmath::Point2::new(4, -9);
    let lifted: Typed<cgmath::Point2<i32>, Meters> = Typed::from_untyped(raw);
    assert!(lifted.to_untyped() == cgmath::Point2::new(4, -9));
}

#[test]
fn add_point_vector_method() {
    let pos: TypedPoint2<i32, Meters> = TypedPoint2::new(1, 2);
    let vec: TypedVector2<i32, Meters> = TypedVector2::new(2, 2);
    assert!(pos.add_vector(vec) == TypedPoint2::new(3, 4));
}

#[test]
fn sub_point_vector() {
    let pos: TypedPoint2<i32, Meters> = TypedPoint2::new(5, 5);
    let vec: TypedVector2<i32, Meters> = TypedVector2::new(2, 3);
    assert!(pos - vec == TypedPoint2::new(3, 2));
    let pos2: TypedPoint2<i32, Meters> = TypedPoint2::new(5, 5);
    let vec2: TypedVector2<i32, Meters> = TypedVector2::new(2, 3);
    assert!(pos2.sub_vector(vec2) == TypedPoint2::new(3, 2));
}

#[test]
fn add_sub_vectors() {
    let a: TypedVector2<i32, Meters> = TypedVector2::new(1, -4);
    let b: TypedVector2<i32, Meters> = TypedVector2::new(10, 7);
    assert!(a + b == TypedVector2::new(11, 3));
    let a2: TypedVector2<i32, Meters> = TypedVector2::new(1, -4);
    let b2: TypedVector2<i32, Meters> = TypedVector2::new(10, 7);
    assert!(a2.add_vector(b2) == TypedVector2::new(11, 3));
    let c: TypedVector2<i32, Meters> = TypedVector2::new(1, -4);
    let d: TypedVector2<i32, Meters> = TypedVector2::new(10, 7);
    assert!(c - d == TypedVector2::new(-9, -11));
    let c2: TypedVector2<i32, Meters> = TypedVector2::new(1, -4);
    let d2: TypedVector2<i32, Meters> = TypedVector2::new(10, 7);
    assert!(c2.sub_vector(d2) == TypedVector2::new(-9, -11));
}

#[test]
fn mul_vector_by_length() {
    let v: TypedVector2<i32, Meters> = TypedVector2::new(2, -3);
    let s: Length<i32, Meters> = Typed::from_untyped(4);
    assert!(v * s == TypedVector2::new(8, -12));
    let v2: TypedVector2<i32, Meters> = TypedVector2::new(2, -3);
    let s2: Length<i32, Meters> = Typed::from_untyped(4);
    assert!(v2.mul_length(s2) == TypedVector2::new(8, -12));
}

#[test]
fn div_vector_by_length() {
    let v: TypedVector2<i32, Meters> = TypedVector2::new(7, -9);
    let s: Length<i32, Meters> = Typed::from_untyped(2);
    assert!(v / s == TypedVector2::new(3, -4));
    let v2: TypedVector2<i32, Meters> = TypedVector2::new(7, -9);
    let s2: Length<i32, Meters> = Typed::from_untyped(2);
    assert!(v2.div_length(s2) == TypedVector2::new(3, -4));
}

#[test]
fn length_arithmetic() {
    let a: Length<i32, Meters> = Typed::from_untyped(10);
    let b: Length<i32, Meters> = Typed::from_untyped(3);
    assert_eq!((a + b).to_untyped(), 13);
    let a: Length<i32, Meters> = Typed::from_untyped(10);
    let b: Length<i32, Meters> = Typed::from_untyped(3);
    assert_eq!((a - b).to_untyped(), 7);
    let a: Length<i32, Meters> = Typed::from_untyped(10);
    let b: Length<i32, Meters> = Typed::from_untyped(3);
    assert_eq!((a * b).to_untyped(), 30);
    let a: Length<i32, Meters> = Typed::from_untyped(-7);
    let b: Length<i32, Meters> = Typed::from_untyped(2);
    assert_eq!((a / b).to_untyped(), -3);
}

#[test]
fn equality_reduces_to_payload() {
    let a: Length<i32, Meters> = Typed::from_untyped(5);
    let b: Length<i32, Meters> = Typed::from_untyped(5);
    let c: Length<i32, Meters> = Typed::from_untyped(6);
    assert!(a == a);
    assert!(a == b);
    assert!(b == a);
    assert!(a != c);
    assert_eq!(a == c, 5 == 6);
    let d: Length<i32, Meters> = Typed::from_untyped(5);
    assert!(a == b && b == d && a == d);
}

#[test]
fn ordering_reduces_to_payload() {
    let a: Length<i32, Meters> = Typed::from_untyped(2);
    let b: Length<i32, Meters> = Typed::from_untyped(3);
    assert!(a < b);
    assert!(b > a);
    assert_eq!(a.partial_cmp(&b), 2i32.partial_cmp(&3));
    let c: Length<i32, Meters> = Typed::from_untyped(2);
    assert_eq!(a.partial_cmp(&c), Some(std::cmp::Ordering::Equal));
    assert_eq!(a < b, 2 < 3);
}

#[test]
fn clone_equal_and_independent() {
    let a: TypedPoint2<i32, Meters> = TypedPoint2::new(1, 2);
    let mut b = a.clone();
    assert!(a == b);
    b = TypedPoint2::new(9, 9);
    assert!(a == TypedPoint2::new(1, 2));
    assert!(b == TypedPoint2::new(9, 9));
}

#[test]
fn debug_is_payload_debug() {
    let n: Length<i32, Meters> = Typed::from_untyped(42);
    assert_eq!(n.debug_string(), "42");
    assert_eq!(n.debug_string(), format!("{:?}", 42));
    let p: TypedPoint2<i32, Meters> = TypedPoint2::new(1, 2);
    assert_eq!(p.debug_string(), format!("{:?}", cgmath::Point2::new(1, 2)));
}

#[test]
fn clone_string_payload() {
    let a: Typed<String, Meters> = Typed::from_untyped(String::from("abc"));
    let b = a.clone();
    assert!(a == b);
    assert_eq!(b.to_untyped(), String::from("abc"));
    assert_eq!(a.to_untyped(), String::from("abc"));
}

#[test]
fn new_stores_coordinates() {
    let p: TypedPoint2<i32, Meters> = TypedPoint2::new(8, -2);
    let raw = p.to_untyped();
    assert_eq!(raw.x, 8);
    assert_eq!(raw.y, -2);
    let v: TypedVector2<i32, Meters> = TypedVector2::new(3, 4);
    let raw = v.to_untyped();
    assert_eq!(raw.x, 3);
    assert_eq!(raw.y, 4);
}

#[test]
fn from_lengths_keeps_coordinates() {
    let x: Length<i32, Meters> = Typed::from_untyped(4);
    let y: Length<i32, Meters> = Typed::from_untyped(6);
    let p = TypedPoint2::from_lengths(x, y);
    assert!(p == TypedPoint2::new(4, 6));
    let x: Length<i32, Meters> = Typed::from_untyped(-1);
    let y: Length<i32, Meters> = Typed::from_untyped(0);
    let v = TypedVector2::from_lengths(x, y);
    assert!(v == TypedVector2::new(-1, 0));
}
