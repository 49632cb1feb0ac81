//! Styles of a plotted series, and the primitives that stand for them.

use vstd::prelude::*;
use crate::instance::{TYPE_CIRCLE, TYPE_MARKER_BASE, TYPE_RECTANGLE};

verus! {

/// Axis scaling type for transforming data coordinates.
#[derive(Clone, Copy, Debug, PartialEq, Eq, Structural)]
pub enum AxisScale {
    /// Linear scaling (no transformation)
    Linear,
    /// Base-10 logarithmic scaling
    Log10,
    /// Natural logarithm scaling
    Ln,
}

impl Default for AxisScale {
    fn default() -> (scale: Self)
        ensures
            scale == AxisScale::Linear,
    {
        AxisScale::Linear
    }
}

/// Line style options for rendering paths and series.
#[derive(Clone, Copy, Debug, PartialEq, Eq, Structural)]
pub enum LineStyle {
    /// Solid continuous line
    Solid,
    /// Dashed line pattern
    Dashed,
    /// Dotted line pattern
    Dotted,
}

/// Marker style options for scatter plots and point rendering.
#[derive(Clone, Copy, Debug, PartialEq, Eq, Structural)]
pub enum MarkerStyle {
    /// Circular marker
    Circle,
    /// Square marker
    Square,
    /// Diamond-shaped marker
    Diamond,
    /// Plus sign (+)
    Plus,
    /// Cross/X marker
    Cross,
    /// Small point
    Point,
}

impl LineStyle {
    /// Lengths of a dash and of the gap behind it, in pixels at scale
    /// one; both are zero for a solid line.
    pub open spec fn spec_dash_pattern(&self) -> (u32, u32) {
        match *self {
            LineStyle::Solid => (0, 0),
            LineStyle::Dashed => (8, 4),
            LineStyle::Dotted => (2, 4),
        }
    }

    /// Lengths of a dash and of the gap behind it, in pixels at scale
    /// one.
    #[verifier::when_used_as_spec(spec_dash_pattern)]
    pub fn dash_pattern(&self) -> (pattern: (u32, u32))
        ensures
            pattern == self.spec_dash_pattern(),
    {
        match *self {
            LineStyle::Solid => (0, 0),
            LineStyle::Dashed => (8, 4),
            LineStyle::Dotted => (2, 4),
        }
    }
}

impl MarkerStyle {
    /// Tag of the primitive that draws a marker of this style.
    pub open spec fn spec_primitive_type(&self) -> u32 {
        match *self {
            MarkerStyle::Circle => TYPE_CIRCLE,
            MarkerStyle::Square => TYPE_RECTANGLE,
            MarkerStyle::Diamond => (TYPE_MARKER_BASE + 3) as u32,
            MarkerStyle::Plus => TYPE_MARKER_BASE,
            MarkerStyle::Cross => (TYPE_MARKER_BASE + 1) as u32,
            MarkerStyle::Point => TYPE_CIRCLE,
        }
    }

    /// Tag of the primitive that draws a marker of this style: a
    /// circle for circles and points, a rectangle for squares, and an
    /// extended marker for the rest.
    #[verifier::when_used_as_spec(spec_primitive_type)]
    pub fn primitive_type(&self) -> (primitive_type: u32)
        ensures
            primitive_type == self.spec_primitive_type(),
            !crate::instance::is_face_type(primitive_type),
    {
        match *self {
            MarkerStyle::Circle => TYPE_CIRCLE,
            MarkerStyle::Square => TYPE_RECTANGLE,
            MarkerStyle::Diamond => TYPE_MARKER_BASE + 3,
            MarkerStyle::Plus => TYPE_MARKER_BASE,
            MarkerStyle::Cross => TYPE_MARKER_BASE + 1,
            MarkerStyle::Point => TYPE_CIRCLE,
        }
    }
}

} // verus!
