//! The instance record: the fixed-size description of one primitive
//! that is uploaded to the device.
//!
//! Coordinates, sizes and colour channels are carried as 32-bit words.
//! Each word holds the bit pattern that the shading stage reads as a
//! single-precision number; the batching logic places the words and
//! never interprets them. The one field the logic does read is the
//! primitive-type tag, which is kept as an integer.

use vstd::prelude::*;

verus! {

/// Tag of a rectangle.
pub const TYPE_RECTANGLE: u32 = 0;

/// Tag of a circle or oval.
pub const TYPE_CIRCLE: u32 = 1;

/// Tag of a line segment.
pub const TYPE_LINE: u32 = 2;

/// Tag of the first extended marker; marker `n` has tag `10 + n`.
pub const TYPE_MARKER_BASE: u32 = 10;

/// Tag of a filled triangle that is lit or colour-mapped.
pub const TYPE_TRIANGLE: u32 = 30;

/// Tag of a filled triangle that is drawn unlit (walls, backgrounds).
pub const TYPE_TRIANGLE_UNLIT: u32 = 31;

/// Size of one instance record on the device, in bytes: five slots of
/// four 32-bit words.
pub const INSTANCE_SIZE: usize = 80;

/// Two 32-bit words.
#[derive(Clone, Copy, Debug, PartialEq, Eq, Structural)]
pub struct Word2 {
    pub x: u32,
    pub y: u32,
}

/// Three 32-bit words.
#[derive(Clone, Copy, Debug, PartialEq, Eq, Structural)]
pub struct Word3 {
    pub x: u32,
    pub y: u32,
    pub z: u32,
}

/// Four 32-bit words: one 16-byte slot of an instance record.
#[derive(Clone, Copy, Debug, PartialEq, Eq, Structural)]
pub struct Word4 {
    pub x: u32,
    pub y: u32,
    pub z: u32,
    pub w: u32,
}

impl Word2 {
    /// The two words `x` and `y`.
    pub fn new(x: u32, y: u32) -> (v: Self)
        ensures
            v == (Word2 { x, y }),
    {
        Word2 { x, y }
    }
}

impl Word3 {
    /// The three words `x`, `y` and `z`.
    pub fn new(x: u32, y: u32, z: u32) -> (v: Self)
        ensures
            v == (Word3 { x, y, z }),
    {
        Word3 { x, y, z }
    }
}

impl Word4 {
    /// The four words `x`, `y`, `z` and `w`.
    pub fn new(x: u32, y: u32, z: u32, w: u32) -> (v: Self)
        ensures
            v == (Word4 { x, y, z, w }),
    {
        Word4 { x, y, z, w }
    }

    /// The slot whose four words are zero.
    pub open spec fn zero() -> Word4 {
        Word4 { x: 0, y: 0, z: 0, w: 0 }
    }
}

/// One primitive: five slots, in the order in which the device reads
/// them. The fourth slot holds the parameters: the primitive-type tag,
/// which the device reads as a number like every other word, and the
/// dash pattern.
///
/// What the three anchor slots hold depends on the primitive:
///
/// | primitive | `anchor_a`                   | `anchor_b`                 | `anchor_c` |
/// |-----------|------------------------------|----------------------------|------------|
/// | rectangle | origin, corner radius in `w` | size, stroke width in `w`  | unused     |
/// | circle    | centre, radius in `w`        | stroke width in `w`        | unused     |
/// | oval      | centre, x radius in `w`      | y radius in `x`, stroke width in `w` | unused |
/// | line      | start, half thickness in `w` | end                        | unused     |
/// | triangle  | vertex 0                     | vertex 1                   | vertex 2   |
#[derive(Clone, Copy, Debug, PartialEq, Eq, Structural)]
pub struct Instance {
    /// Primary position and radius slot.
    pub anchor_a: Word4,
    /// Secondary slot.
    pub anchor_b: Word4,
    /// Straight RGBA colour.
    pub color: Word4,
    /// Primitive-type tag, the first parameter of the record: one of
    /// `TYPE_RECTANGLE`, `TYPE_CIRCLE`, `TYPE_LINE`, `TYPE_TRIANGLE`,
    /// `TYPE_TRIANGLE_UNLIT`, or `TYPE_MARKER_BASE` plus the index of
    /// a marker.
    pub primitive_type: u32,
    /// Length of a dash along a line.
    pub dash_length: u32,
    /// Length of the gap between two dashes.
    pub gap_length: u32,
    /// Offset at which the dash pattern starts.
    pub dash_offset: u32,
    /// Tertiary slot, used by triangles only.
    pub anchor_c: Word4,
}

/// Whether a tag denotes a face: an opaque, depth-writing triangle.
pub open spec fn is_face_type(primitive_type: u32) -> bool {
    primitive_type == TYPE_TRIANGLE || primitive_type == TYPE_TRIANGLE_UNLIT
}

impl Instance {
    /// Whether this instance is a face (tag 30 or 31).
    pub open spec fn spec_is_face(&self) -> bool {
        is_face_type(self.primitive_type)
    }

    /// Whether this instance is a face and so belongs to the
    /// depth-writing draw.
    #[verifier::when_used_as_spec(spec_is_face)]
    pub fn is_face(&self) -> (b: bool)
        ensures
            b == self.spec_is_face(),
    {
        self.primitive_type == TYPE_TRIANGLE || self.primitive_type == TYPE_TRIANGLE_UNLIT
    }
}

} // verus!
