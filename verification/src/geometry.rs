//! Geometry and colour values as the engine stores them.
//!
//! The engine never computes with coordinates or colour channels: it stores
//! them, copies them and hands them on to a renderer. Each channel is kept
//! as the bit pattern of an IEEE 754 binary32 value (what `f32::to_bits`
//! gives), so that equality here is equality of the stored bits.
use vstd::prelude::*;

verus! {

/// An axis-aligned rectangle; each field is the bit pattern of an `f32`.
#[derive(Clone, Copy, Debug, PartialEq, Eq, Hash, Structural)]
pub struct UiRect {
    pub x: u32,
    pub y: u32,
    pub width: u32,
    pub height: u32,
}

impl UiRect {
    /// The rectangle at the origin with no extent (all channels `+0.0`).
    pub open spec fn zero() -> UiRect {
        UiRect { x: 0, y: 0, width: 0, height: 0 }
    }
}

impl Default for UiRect {
    fn default() -> (r: UiRect)
        ensures
            r == UiRect::zero(),
    {
        UiRect { x: 0, y: 0, width: 0, height: 0 }
    }
}

/// A point; each coordinate is the bit pattern of an `f32`.
#[derive(Clone, Copy, Debug, PartialEq, Eq, Hash, Structural)]
pub struct UiPoint {
    pub x: u32,
    pub y: u32,
}

/// A width and a height; each field is the bit pattern of an `f32`.
#[derive(Clone, Copy, Debug, PartialEq, Eq, Hash, Structural)]
pub struct UiSize {
    pub width: u32,
    pub height: u32,
}

impl Default for UiSize {
    fn default() -> (r: UiSize)
        ensures
            r == (UiSize { width: 0, height: 0 }),
    {
        UiSize { width: 0, height: 0 }
    }
}

/// Lower and upper size bounds handed to layout.
#[derive(Clone, Copy, Debug, PartialEq, Eq, Structural)]
pub struct LayoutConstraints {
    pub min: UiSize,
    pub max: UiSize,
}

impl LayoutConstraints {
    /// Constraints that admit exactly `size`.
    pub fn tight(size: UiSize) -> (r: LayoutConstraints)
        ensures
            r.min == size,
            r.max == size,
    {
        LayoutConstraints { min: size, max: size }
    }
}

/// A straight-alpha RGBA colour; each channel is the bit pattern of an `f32`.
#[derive(Clone, Copy, Debug, PartialEq, Eq, Hash, Structural)]
pub struct ColorRgba {
    pub r: u32,
    pub g: u32,
    pub b: u32,
    pub a: u32,
}

impl ColorRgba {
    /// A colour from its four channels.
    pub fn rgba(r: u32, g: u32, b: u32, a: u32) -> (c: ColorRgba)
        ensures
            c == (ColorRgba { r, g, b, a }),
    {
        ColorRgba { r, g, b, a }
    }
}

impl Default for ColorRgba {
    fn default() -> (c: ColorRgba)
        ensures
            c == (ColorRgba { r: 0, g: 0, b: 0, a: 0 }),
    {
        ColorRgba { r: 0, g: 0, b: 0, a: 0 }
    }
}

} // verus!
