//! Values of device parameters.

use vstd::prelude::*;

verus! {

/// The value of one device parameter.
///
/// A floating point value is held as the bit pattern of its single precision
/// encoding; the library only stores and compares it.
#[derive(Clone, Copy, Debug, PartialEq, Eq, Structural)]
pub enum ParamValue {
    /// A floating point value, as its IEEE 754 single precision bits.
    Float(u32),
    /// A boolean value.
    Bool(bool),
    /// An unsigned integer value.
    U32(u32),
    /// A signed integer value.
    I32(i32),
    /// A value of a kind the device does not describe.
    Other,
}

/// True when `bits` encodes a finite single precision number, that is when
/// its exponent field is not all ones.
pub open spec fn finite_bits_spec(bits: u32) -> bool {
    (bits >> 23u32) & 0xffu32 != 0xffu32
}

/// Tells whether a single precision bit pattern is neither infinite nor NaN.
#[verifier::when_used_as_spec(finite_bits_spec)]
pub fn finite_bits(bits: u32) -> (finite: bool)
    ensures
        finite == finite_bits_spec(bits),
{
    (bits >> 23u32) & 0xffu32 != 0xffu32
}

} // verus!
