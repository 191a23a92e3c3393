use caster_steering::{check_divisor, MathError, Vector2Bits, Vector3Bits};

#[test]
fn zero_divisor_is_rejected() {
    assert_eq!(check_divisor(0.0f32.to_bits()), Err(MathError::DivisionByZero));
    assert_eq!(check_divisor((-0.0f32).to_bits()), Err(MathError::DivisionByZero));
    assert_eq!(check_divisor(2.0f32.to_bits()), Ok(()));
}

#[test]
fn nan_detection() {
    let v = Vector2Bits { x: f32::NAN.to_bits(), y: 1.0f32.to_bits() };
    assert!(v.has_nans());
    let w = Vector3Bits { x: 1.0f32.to_bits(), y: f32::INFINITY.to_bits(), z: 0 };
    assert!(!w.has_nans());
}

#[test]
fn abs_and_negate() {
    let v = Vector3Bits { x: (-1.5f32).to_bits(), y: 2.0f32.to_bits(), z: (-0.0f32).to_bits() };
    let a = v.abs();
    assert_eq!(f32::from_bits(a.x), 1.5);
    assert_eq!(f32::from_bits(a.y), 2.0);
    assert_eq!(a.z, 0);
    let n = Vector2Bits { x: 3.0f32.to_bits(), y: (-4.0f32).to_bits() }.negate();
    assert_eq!(f32::from_bits(n.x), -3.0);
    assert_eq!(f32::from_bits(n.y), 4.0);
}
