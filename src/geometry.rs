use vstd::prelude::*;

verus! {

/// Bits of the exponent field of a single-precision number.
pub const EXPONENT_MASK: u32 = 0x7f80_0000;

/// Bit pattern of the flattening tolerance used by both tessellators
/// (the single-precision number nearest to one hundredth).
pub const DEFAULT_TOLERANCE_BITS: u32 = 0x3c23_d70a;

/// A single-precision number is finite when its exponent field is not all
/// ones: with the sign bit dropped, the pattern lies below that of infinity.
pub open spec fn is_finite_bits(b: u32) -> bool {
    b % 0x8000_0000 < EXPONENT_MASK
}

/// A single-precision number is finite and strictly positive when its sign
/// bit is clear, it is not zero, and its exponent field is not all ones.
pub open spec fn is_positive_finite_bits(b: u32) -> bool {
    0 < b < EXPONENT_MASK
}

/// Tests whether the single-precision number with bit pattern `b` is finite.
pub fn finite_bits(b: u32) -> (r: bool)
    ensures
        r == is_finite_bits(b),
{
    assert(b & 0x7fff_ffff == b % 0x8000_0000) by (bit_vector);
    b & 0x7fff_ffff < EXPONENT_MASK
}

/// Tests whether the single-precision number with bit pattern `b` is finite
/// and greater than zero.
pub fn positive_finite_bits(b: u32) -> (r: bool)
    ensures
        r == is_positive_finite_bits(b),
{
    0 < b && b < EXPONENT_MASK
}

/// A point in the plane; each coordinate is the bit pattern of a
/// single-precision number.
#[derive(Clone, Copy, Debug, PartialEq, Eq, Structural)]
pub struct LyonPoint {
    pub x: u32,
    pub y: u32,
}

/// An axis-aligned rectangle given by its origin corner and its extent; each
/// component is the bit pattern of a single-precision number.
#[derive(Clone, Copy, Debug, PartialEq, Eq, Structural)]
pub struct LyonRect {
    pub x: u32,
    pub y: u32,
    pub width: u32,
    pub height: u32,
}

impl LyonPoint {
    pub open spec fn is_finite(self) -> bool {
        is_finite_bits(self.x) && is_finite_bits(self.y)
    }

    /// Makes a point from the bit patterns of its two coordinates.
    pub fn new(x: u32, y: u32) -> (r: LyonPoint)
        ensures
            r.x == x,
            r.y == y,
    {
        LyonPoint { x, y }
    }

    /// Tests whether both coordinates are finite numbers.
    pub fn finite(&self) -> (r: bool)
        ensures
            r == self.is_finite(),
    {
        finite_bits(self.x) && finite_bits(self.y)
    }
}

impl LyonRect {
    pub open spec fn is_finite(self) -> bool {
        is_finite_bits(self.x) && is_finite_bits(self.y) && is_finite_bits(self.width)
            && is_finite_bits(self.height)
    }

    /// Makes a rectangle from the bit patterns of its origin and extent.
    pub fn new(x: u32, y: u32, width: u32, height: u32) -> (r: LyonRect)
        ensures
            r.x == x,
            r.y == y,
            r.width == width,
            r.height == height,
    {
        LyonRect { x, y, width, height }
    }

    /// Tests whether all four components are finite numbers.
    pub fn finite(&self) -> (r: bool)
        ensures
            r == self.is_finite(),
    {
        finite_bits(self.x) && finite_bits(self.y) && finite_bits(self.width) && finite_bits(
            self.height,
        )
    }
}

/// Tests whether every point of `pts` has finite coordinates.
pub fn all_finite(pts: &Vec<LyonPoint>) -> (r: bool)
    ensures
        r == (forall|i: int| 0 <= i < pts@.len() ==> (#[trigger] pts@[i]).is_finite()),
{
    let mut i: usize = 0;
    while i < pts.len()
        invariant
            i <= pts@.len(),
            forall|j: int| 0 <= j < i ==> (#[trigger] pts@[j]).is_finite(),
        decreases pts@.len() - i,
    {
        if !pts[i].finite() {
            return false;
        }
        i = i + 1;
    }
    true
}

} // verus!
