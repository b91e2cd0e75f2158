//! The shading rules: how a fragment's color is derived from a vertex's
//! local position. Two variants exist, chosen per shape at startup and
//! immutable for the run: a position-based gradient, and a flat fixed color
//! (whose computation reads no normals, even where the geometry carries
//! them).

use crate::fixed::FIXED_ONE;
use crate::geometry::Vertex;
use vstd::prelude::*;

verus! {

/// The fragment-coloring policy of one shape.
#[derive(Clone, Copy, Debug, PartialEq, Eq, Structural)]
pub enum ShadingRule {
    /// Color follows the local position: each channel is the matching
    /// coordinate mapped from `[-FIXED_ONE, FIXED_ONE]` into
    /// `[0, FIXED_ONE]`, with full alpha.
    PositionGradient,
    /// A constant color regardless of position and normals.
    FixedColor,
}

/// A color, each channel in fixed point with `FIXED_ONE` as full intensity.
#[derive(Clone, Copy, Debug, PartialEq, Eq, Structural)]
pub struct Color {
    pub r: i64,
    pub g: i64,
    pub b: i64,
    pub a: i64,
}

/// One gradient channel: the coordinate `v`, normalized from
/// `[-FIXED_ONE, FIXED_ONE]` into the color range `[0, FIXED_ONE]`.
pub open spec fn spec_gradient_channel(v: int) -> int {
    (v + FIXED_ONE) / 2
}

/// The color of a fragment at local position `p` under `rule`. For the
/// gradient the position must lie in the unit cube, as every shipped shape's
/// positions do; the fixed color is the shipped constant: full red, a fifth
/// of green and blue, full alpha.
pub fn fragment_color(rule: &ShadingRule, p: &Vertex) -> (c: Color)
    requires
        rule is PositionGradient ==> {
            &&& -FIXED_ONE <= p.x <= FIXED_ONE
            &&& -FIXED_ONE <= p.y <= FIXED_ONE
            &&& -FIXED_ONE <= p.z <= FIXED_ONE
        },
    ensures
        rule is PositionGradient ==> {
            &&& c.r == spec_gradient_channel(p.x as int)
            &&& c.g == spec_gradient_channel(p.y as int)
            &&& c.b == spec_gradient_channel(p.z as int)
            &&& c.a == FIXED_ONE
        },
        rule is FixedColor ==> {
            &&& c.r == FIXED_ONE
            &&& c.g == FIXED_ONE / 5
            &&& c.b == FIXED_ONE / 5
            &&& c.a == FIXED_ONE
        },
        0 <= c.r <= FIXED_ONE,
        0 <= c.g <= FIXED_ONE,
        0 <= c.b <= FIXED_ONE,
        c.a == FIXED_ONE,
{
    match rule {
        ShadingRule::PositionGradient => Color {
            r: (p.x + FIXED_ONE) / 2,
            g: (p.y + FIXED_ONE) / 2,
            b: (p.z + FIXED_ONE) / 2,
            a: FIXED_ONE,
        },
        ShadingRule::FixedColor => Color {
            r: FIXED_ONE,
            g: FIXED_ONE / 5,
            b: FIXED_ONE / 5,
            a: FIXED_ONE,
        },
    }
}

} // verus!
