//! Settings of the editor's background grid.

use crate::scalar::{Scalar, Vec3, FIFTH_BITS, ONE_BITS, QUARTER_BITS, TENTH_BITS};
use vstd::prelude::*;

verus! {

/// A colour in sRGB with alpha.
#[derive(Clone, Copy, Debug, PartialEq, Eq, Structural)]
pub struct Rgba {
    pub red: Scalar,
    pub green: Scalar,
    pub blue: Scalar,
    pub alpha: Scalar,
}

/// The opaque colour with the given channels, each named by its bit pattern.
pub open spec fn opaque(red: u32, green: u32, blue: u32) -> Rgba {
    Rgba {
        red: Scalar { bits: red },
        green: Scalar { bits: green },
        blue: Scalar { bits: blue },
        alpha: Scalar { bits: ONE_BITS },
    }
}

impl Rgba {
    /// The opaque colour with the given channels: alpha is one.
    pub fn rgb(red: Scalar, green: Scalar, blue: Scalar) -> (c: Rgba)
        ensures
            c == opaque(red.bits, green.bits, blue.bits),
    {
        Rgba { red, green, blue, alpha: Scalar { bits: ONE_BITS } }
    }
}

/// Marks the entity that carries the grid.
#[derive(Clone, Copy, Debug, Default)]
pub struct InfiniteGrid;

/// The colours the grid is drawn in.
#[derive(Clone, Copy, Debug, PartialEq, Eq, Structural)]
pub struct InfiniteGridSettings {
    pub x_axis_color: Rgba,
    pub y_axis_color: Rgba,
    pub minor_line_color: Rgba,
    pub major_line_color: Rgba,
}

impl Default for InfiniteGridSettings {
    /// A red x axis `(1, 0.2, 0.2)`, a blue y axis `(0.2, 0.2, 1)`, minor
    /// lines in the grey `0.1` and major lines in the grey `0.25`, all opaque.
    fn default() -> (s: InfiniteGridSettings)
        ensures
            s.x_axis_color == opaque(ONE_BITS, FIFTH_BITS, FIFTH_BITS),
            s.y_axis_color == opaque(FIFTH_BITS, FIFTH_BITS, ONE_BITS),
            s.minor_line_color == opaque(TENTH_BITS, TENTH_BITS, TENTH_BITS),
            s.major_line_color == opaque(QUARTER_BITS, QUARTER_BITS, QUARTER_BITS),
    {
        let one = Scalar { bits: ONE_BITS };
        let fifth = Scalar { bits: FIFTH_BITS };
        let tenth = Scalar { bits: TENTH_BITS };
        let quarter = Scalar { bits: QUARTER_BITS };
        InfiniteGridSettings {
            x_axis_color: Rgba::rgb(one, fifth, fifth),
            y_axis_color: Rgba::rgb(fifth, fifth, one),
            minor_line_color: Rgba::rgb(tenth, tenth, tenth),
            major_line_color: Rgba::rgb(quarter, quarter, quarter),
        }
    }
}

/// Where the view frustum meets the plane of the grid.
#[derive(Clone, Copy, Debug, Default)]
pub struct GridFrustumIntersect {
    pub points: [Vec3; 4],
    pub center: Vec3,
    pub up_dir: Vec3,
    pub width: Scalar,
    pub height: Scalar,
}

} // verus!
