//! Defines the [Rect] struct and its conversions from and to the native
//! rectangle layout.

use vstd::prelude::*;

verus! {

/// The rectangle layout used by the native JAWT headers: four 32-bit signed
/// integers. Values of this shape arrive from the JVM inside the drawing
/// surface info and are converted into [Rect] for the caller.
#[derive(Debug, Clone, Copy, PartialEq, Eq, Structural)]
pub struct NativeRect {
    pub x: i32,
    pub y: i32,
    pub width: i32,
    pub height: i32,
}

/// Structure for a native rectangle.
#[derive(Debug, Clone, Copy, PartialEq, Eq, Structural, PartialOrd, Ord, Hash)]
pub struct Rect {
    pub x: i32,
    pub y: i32,
    pub width: i32,
    pub height: i32,
}

impl Rect {
    /// What [Rect::into_sys] returns: the same four fields in the native
    /// layout.
    pub open spec fn spec_into_sys(self) -> NativeRect {
        NativeRect { x: self.x, y: self.y, width: self.width, height: self.height }
    }

    /// What [Rect::from_sys] returns: the same four fields read out of the
    /// native layout.
    pub open spec fn spec_from_sys(rect: NativeRect) -> Rect {
        Rect { x: rect.x, y: rect.y, width: rect.width, height: rect.height }
    }

    /// Converts this rectangle into the native layout, field for field.
    pub fn into_sys(self) -> (r: NativeRect)
        ensures
            r == self.spec_into_sys(),
    {
        NativeRect { x: self.x, y: self.y, width: self.width, height: self.height }
    }

    /// Reads a rectangle out of the native layout, field for field.
    pub fn from_sys(rect: NativeRect) -> (r: Self)
        ensures
            r == Rect::spec_from_sys(rect),
    {
        Self { x: rect.x, y: rect.y, width: rect.width, height: rect.height }
    }
}

/// Converting a [Rect] into the native layout and back yields a bit-identical
/// rectangle, for every input, negative origins and empty extents included;
/// the same holds starting from a [NativeRect].
pub proof fn lemma_rect_round_trip(r: Rect, n: NativeRect)
    ensures
        Rect::spec_from_sys(r.spec_into_sys()) == r,
        Rect::spec_from_sys(n).spec_into_sys() == n,
{
}

} // verus!
