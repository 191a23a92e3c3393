use vstd::prelude::*;

verus! {

/// Exponent field of a single-precision bit pattern.
pub open spec fn exponent_of(b: u32) -> u32 {
    (b >> 23u32) & 0xffu32
}

/// Mantissa field of a single-precision bit pattern.
pub open spec fn mantissa_of(b: u32) -> u32 {
    b & 0x7f_ffffu32
}

/// A bit pattern encodes NaN when its exponent is all ones and its mantissa is non-zero.
pub open spec fn is_nan_spec(b: u32) -> bool {
    exponent_of(b) == 0xffu32 && mantissa_of(b) != 0u32
}

/// A bit pattern encodes +0 or -0 when every bit but the sign bit is clear.
pub open spec fn is_zero_spec(b: u32) -> bool {
    b & 0x7fff_ffffu32 == 0u32
}

/// Two-component vector whose components are held as single-precision bit patterns.
#[derive(Clone, Copy, Debug, PartialEq, Eq)]
pub struct Vector2Bits {
    pub x: u32,
    pub y: u32,
}

/// Three-component vector whose components are held as single-precision bit patterns.
#[derive(Clone, Copy, Debug, PartialEq, Eq)]
pub struct Vector3Bits {
    pub x: u32,
    pub y: u32,
    pub z: u32,
}

/// Failure of a vector or kinematics computation.
#[derive(Clone, Copy, Debug, PartialEq, Eq)]
pub enum MathError {
    DivisionByZero,
}

/// Whether one component is NaN.
pub fn component_is_nan(b: u32) -> (r: bool)
    ensures
        r == is_nan_spec(b),
{
    ((b >> 23u32) & 0xffu32) == 0xffu32 && (b & 0x7f_ffffu32) != 0u32
}

/// Whether one component is positive or negative zero.
pub fn component_is_zero(b: u32) -> (r: bool)
    ensures
        r == is_zero_spec(b),
{
    b & 0x7fff_ffffu32 == 0u32
}

/// Rejects a zero divisor before any division takes place.
pub fn check_divisor(s: u32) -> (r: Result<(), MathError>)
    ensures
        r is Err <==> is_zero_spec(s),
        r is Err ==> r == Err::<(), MathError>(MathError::DivisionByZero),
{
    if component_is_zero(s) {
        Err(MathError::DivisionByZero)
    } else {
        Ok(())
    }
}

impl Vector2Bits {
    pub fn has_nans(&self) -> (r: bool)
        ensures
            r == (is_nan_spec(self.x) || is_nan_spec(self.y)),
    {
        component_is_nan(self.x) || component_is_nan(self.y)
    }

    /// Componentwise negation: flips the sign bit of each component.
    pub fn negate(&self) -> (r: Vector2Bits)
        ensures
            r.x == self.x ^ 0x8000_0000u32,
            r.y == self.y ^ 0x8000_0000u32,
    {
        Vector2Bits { x: self.x ^ 0x8000_0000u32, y: self.y ^ 0x8000_0000u32 }
    }
}

impl Vector3Bits {
    pub fn has_nans(&self) -> (r: bool)
        ensures
            r == (is_nan_spec(self.x) || is_nan_spec(self.y) || is_nan_spec(self.z)),
    {
        component_is_nan(self.x) || component_is_nan(self.y) || component_is_nan(self.z)
    }

    /// Componentwise absolute value: clears the sign bit of each component.
    pub fn abs(&self) -> (r: Vector3Bits)
        ensures
            r.x == self.x & 0x7fff_ffffu32,
            r.y == self.y & 0x7fff_ffffu32,
            r.z == self.z & 0x7fff_ffffu32,
    {
        Vector3Bits { x: self.x & 0x7fff_ffffu32, y: self.y & 0x7fff_ffffu32, z: self.z & 0x7fff_ffffu32 }
    }
}

/// Negating twice gives back the vector.
pub proof fn lemma_negate_involutive(v: Vector2Bits)
    ensures
        (v.x ^ 0x8000_0000u32) ^ 0x8000_0000u32 == v.x,
        (v.y ^ 0x8000_0000u32) ^ 0x8000_0000u32 == v.y,
{
    let x = v.x;
    let y = v.y;
    assert((x ^ 0x8000_0000u32) ^ 0x8000_0000u32 == x) by (bit_vector);
    assert((y ^ 0x8000_0000u32) ^ 0x8000_0000u32 == y) by (bit_vector);
}

} // verus!
