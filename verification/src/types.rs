//! Plain value types shared by the whole engine core.

use vstd::prelude::*;
use vstd::string::StringSliceAdditionalSpecFns;
use vstd::utf8::encode_utf8_decode_utf8;

verus! {

/// Compares two byte slices for equality.
pub fn eq_bytes(a: &[u8], b: &[u8]) -> (r: bool)
    ensures
        r == (a@ == b@),
{
    if a.len() != b.len() {
        proof {
            assert(a@ != b@);
        }
        return false;
    }
    let mut i: usize = 0;
    while i < a.len()
        invariant
            i <= a@.len(),
            a@.len() == b@.len(),
            forall|k: int| 0 <= k < i ==> a@[k] == b@[k],
        decreases a@.len() - i,
    {
        if a[i] != b[i] {
            return false;
        }
        i = i + 1;
    }
    proof {
        assert(a@ =~= b@);
    }
    true
}

/// Compares two string slices for equality of their characters.
pub fn str_eq(a: &str, b: &str) -> (r: bool)
    ensures
        r == (a@ == b@),
{
    let r = eq_bytes(a.as_bytes(), b.as_bytes());
    proof {
        if a.spec_bytes() == b.spec_bytes() {
            encode_utf8_decode_utf8(a@);
            encode_utf8_decode_utf8(b@);
        }
    }
    r
}

/// Width and height of an image, a window or a viewport, in pixels.
#[derive(Clone, Copy, PartialEq, Eq, Structural, Debug)]
pub struct Extent2d {
    pub width: u32,
    pub height: u32,
}

impl Extent2d {
    pub fn new(width: u32, height: u32) -> (r: Extent2d)
        ensures
            r.width == width,
            r.height == height,
    {
        Extent2d { width, height }
    }
}

/// Number of fixed-point steps that make up the value one.
///
/// Color channels and material scalars are carried as thousandths, so the
/// channel value one is 1000 and 0.5 is 500.
pub const FIXED_ONE: u32 = 1000;

/// An opaque color: red, green and blue channels in thousandths of full
/// intensity, with no alpha channel.
#[derive(Clone, Copy, PartialEq, Eq, Structural, Debug)]
pub struct OpaqueColor {
    pub r: u32,
    pub g: u32,
    pub b: u32,
}

impl OpaqueColor {
    pub fn new(r: u32, g: u32, b: u32) -> (c: OpaqueColor)
        ensures
            c == (OpaqueColor { r, g, b }),
    {
        OpaqueColor { r, g, b }
    }

    pub fn black() -> (c: OpaqueColor)
        ensures
            c == (OpaqueColor { r: 0, g: 0, b: 0 }),
    {
        OpaqueColor { r: 0, g: 0, b: 0 }
    }
}

/// A color with an alpha channel, in thousandths of full intensity.
#[derive(Clone, Copy, PartialEq, Eq, Structural, Debug)]
pub struct Color {
    pub r: u32,
    pub g: u32,
    pub b: u32,
    pub a: u32,
}

impl Color {
    pub fn new(r: u32, g: u32, b: u32, a: u32) -> (c: Color)
        ensures
            c == (Color { r, g, b, a }),
    {
        Color { r, g, b, a }
    }

    pub fn black() -> (c: Color)
        ensures
            c == (Color { r: 0, g: 0, b: 0, a: FIXED_ONE }),
    {
        Color { r: 0, g: 0, b: 0, a: FIXED_ONE }
    }

    pub fn white() -> (c: Color)
        ensures
            c == (Color { r: FIXED_ONE, g: FIXED_ONE, b: FIXED_ONE, a: FIXED_ONE }),
    {
        Color { r: FIXED_ONE, g: FIXED_ONE, b: FIXED_ONE, a: FIXED_ONE }
    }
}

/// An axis-aligned rectangle in pixels.
#[derive(Clone, Copy, PartialEq, Eq, Structural, Debug)]
pub struct Rect2u {
    pub x: u32,
    pub y: u32,
    pub width: u32,
    pub height: u32,
}

impl Rect2u {
    pub open spec fn wf(self) -> bool {
        &&& self.x + self.width <= u32::MAX
        &&& self.y + self.height <= u32::MAX
    }

    pub fn new(x: u32, y: u32, width: u32, height: u32) -> (r: Rect2u)
        ensures
            r == (Rect2u { x, y, width, height }),
    {
        Rect2u { x, y, width, height }
    }

    /// Whether the two rectangles overlap in both axes.
    pub fn intersects(&self, rect: Rect2u) -> (r: bool)
        requires
            self.wf(),
            rect.wf(),
        ensures
            r == (rect.x + rect.width > self.x && rect.x < self.x + self.width && rect.y
                + rect.height > self.y && rect.y < self.y + self.height),
    {
        if rect.x + rect.width > self.x && rect.x < self.x + self.width {
            if rect.y + rect.height > self.y && rect.y < self.y + self.height {
                return true;
            }
        }
        false
    }

    pub fn get_pos(&self) -> (r: (u32, u32))
        ensures
            r == (self.x, self.y),
    {
        (self.x, self.y)
    }

    pub fn get_size(&self) -> (r: (u32, u32))
        ensures
            r == (self.width, self.height),
    {
        (self.width, self.height)
    }
}

/// A two-component vector in fixed-point thousandths.
#[derive(Clone, Copy, PartialEq, Eq, Structural, Debug)]
pub struct Vec2Fx {
    pub x: i64,
    pub y: i64,
}

impl Vec2Fx {
    pub fn new(x: i64, y: i64) -> (v: Vec2Fx)
        ensures
            v == (Vec2Fx { x, y }),
    {
        Vec2Fx { x, y }
    }

    pub fn zero() -> (v: Vec2Fx)
        ensures
            v == (Vec2Fx { x: 0, y: 0 }),
    {
        Vec2Fx { x: 0, y: 0 }
    }
}

/// A three-component vector in fixed-point thousandths.
#[derive(Clone, Copy, PartialEq, Eq, Structural, Debug)]
pub struct Vec3Fx {
    pub x: i64,
    pub y: i64,
    pub z: i64,
}

impl Vec3Fx {
    pub fn new(x: i64, y: i64, z: i64) -> (v: Vec3Fx)
        ensures
            v == (Vec3Fx { x, y, z }),
    {
        Vec3Fx { x, y, z }
    }

    pub fn zero() -> (v: Vec3Fx)
        ensures
            v == (Vec3Fx { x: 0, y: 0, z: 0 }),
    {
        Vec3Fx { x: 0, y: 0, z: 0 }
    }
}

} // verus!
