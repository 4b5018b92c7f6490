//! Colors as plain values.

use vstd::prelude::*;

verus! {

/// A color in linear RGBA.
///
/// Each channel holds the bit pattern of an IEEE 754 single-precision number, so
/// that a color can be carried, compared and stored exactly without any
/// arithmetic on it.
#[derive(Clone, Copy, Debug, PartialEq, Eq, Hash, Structural)]
pub struct Color {
    pub red: u32,
    pub green: u32,
    pub blue: u32,
    pub alpha: u32,
}

} // verus!
