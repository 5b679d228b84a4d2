//! Sizes, rectangles and offsets, in the integers that the logic reads.

use vstd::prelude::*;

verus! {

/// A width and a height in physical pixels.
#[derive(Clone, Copy, Debug, PartialEq, Eq, Structural)]
pub struct PhysicalSize {
    pub width: u32,
    pub height: u32,
}

/// An offset of two single-precision coordinates, held as their IEEE 754 bit
/// patterns: the library carries an offset through and never computes with it.
#[derive(Clone, Copy, Debug, PartialEq, Eq, Structural)]
pub struct PixelOffset {
    pub x_bits: u32,
    pub y_bits: u32,
}

/// The client rectangle of a view, from the origin to `(right, bottom)`.
#[derive(Clone, Copy, Debug, PartialEq, Eq, Structural)]
pub struct ClientRect {
    pub left: i32,
    pub top: i32,
    pub right: i32,
    pub bottom: i32,
}

/// A width and a height as signed numbers, the way GL and WinRT count them.
#[derive(Clone, Copy, Debug, PartialEq, Eq, Structural)]
pub struct SignedSize {
    pub width: i32,
    pub height: i32,
}

/// The bits of `x` read as a two's complement number.
pub open spec fn signed_of(x: u32) -> int {
    if x <= i32::MAX {
        x as int
    } else {
        x - 0x1_0000_0000
    }
}

/// The bits of `x` read as an unsigned number.
pub open spec fn unsigned_of(x: i32) -> int {
    if x >= 0 {
        x as int
    } else {
        x + 0x1_0000_0000
    }
}

/// Reinterprets an unsigned pixel count as a signed one.
pub fn as_signed(x: u32) -> (r: i32)
    ensures
        r == signed_of(x),
{
    if x <= 0x7fff_ffff {
        x as i32
    } else {
        let distance: u32 = u32::MAX - x;
        -1 - (distance as i32)
    }
}

/// Reinterprets a signed pixel count as an unsigned one.
pub fn as_unsigned(x: i32) -> (r: u32)
    ensures
        r == unsigned_of(x),
{
    if x >= 0 {
        x as u32
    } else {
        let distance: u32 = (-1 - x) as u32;
        u32::MAX - distance
    }
}

/// Reinterpreting a count and then reading it back gives the same count.
pub proof fn reinterpretation_round_trips(x: u32, y: i32)
    ensures
        unsigned_of(signed_of(x) as i32) == x,
        signed_of(unsigned_of(y) as u32) == y,
{
}

impl PhysicalSize {
    pub fn new(width: u32, height: u32) -> (r: Self)
        ensures
            r.width == width,
            r.height == height,
    {
        PhysicalSize { width, height }
    }

    /// Whether a surface of this size has no pixels.
    pub open spec fn spec_is_empty(self) -> bool {
        self.width == 0 || self.height == 0
    }

    /// Whether a surface of this size has no pixels.
    #[verifier::when_used_as_spec(spec_is_empty)]
    pub fn is_empty(self) -> (r: bool)
        ensures
            r == self.is_empty(),
    {
        self.width == 0 || self.height == 0
    }

    /// This size with each side raised to at least one pixel.
    pub open spec fn spec_at_least_one(self) -> PhysicalSize {
        PhysicalSize {
            width: if self.width == 0 { 1 } else { self.width },
            height: if self.height == 0 { 1 } else { self.height },
        }
    }

    /// This size with each side raised to at least one pixel.
    #[verifier::when_used_as_spec(spec_at_least_one)]
    pub fn at_least_one(self) -> (r: PhysicalSize)
        ensures
            r == self.at_least_one(),
    {
        PhysicalSize {
            width: if self.width == 0 { 1 } else { self.width },
            height: if self.height == 0 { 1 } else { self.height },
        }
    }

    /// This size counted with signed numbers.
    pub open spec fn spec_signed(self) -> SignedSize {
        SignedSize { width: signed_of(self.width) as i32, height: signed_of(self.height) as i32 }
    }

    /// This size counted with signed numbers.
    #[verifier::when_used_as_spec(spec_signed)]
    pub fn signed(self) -> (r: SignedSize)
        ensures
            r == self.signed(),
    {
        SignedSize { width: as_signed(self.width), height: as_signed(self.height) }
    }

    /// The client rectangle that a view of this size fills.
    pub open spec fn spec_client_rect(self) -> ClientRect {
        ClientRect {
            left: 0,
            top: 0,
            right: signed_of(self.width) as i32,
            bottom: signed_of(self.height) as i32,
        }
    }

    /// The client rectangle that a view of this size fills.
    #[verifier::when_used_as_spec(spec_client_rect)]
    pub fn client_rect(self) -> (r: ClientRect)
        ensures
            r == self.client_rect(),
    {
        ClientRect { left: 0, top: 0, right: as_signed(self.width), bottom: as_signed(self.height) }
    }
}

impl SignedSize {
    /// This size counted with unsigned numbers.
    pub open spec fn spec_unsigned(self) -> PhysicalSize {
        PhysicalSize {
            width: unsigned_of(self.width) as u32,
            height: unsigned_of(self.height) as u32,
        }
    }

    /// This size counted with unsigned numbers.
    #[verifier::when_used_as_spec(spec_unsigned)]
    pub fn unsigned(self) -> (r: PhysicalSize)
        ensures
            r == self.unsigned(),
    {
        PhysicalSize { width: as_unsigned(self.width), height: as_unsigned(self.height) }
    }

    /// Whether both sides are at least one pixel long.
    pub open spec fn spec_is_positive(self) -> bool {
        self.width > 0 && self.height > 0
    }

    /// Whether both sides are at least one pixel long.
    #[verifier::when_used_as_spec(spec_is_positive)]
    pub fn is_positive(self) -> (r: bool)
        ensures
            r == self.is_positive(),
    {
        self.width > 0 && self.height > 0
    }
}

impl PixelOffset {
    /// The offset of the origin, `(0.0, 0.0)`.
    pub open spec fn spec_zero() -> PixelOffset {
        PixelOffset { x_bits: 0, y_bits: 0 }
    }

    /// The offset of the origin, `(0.0, 0.0)`.
    #[verifier::when_used_as_spec(spec_zero)]
    pub fn zero() -> (r: PixelOffset)
        ensures
            r == PixelOffset::zero(),
    {
        PixelOffset { x_bits: 0, y_bits: 0 }
    }
}

/// Reinterpreting a count keeps its bits: the result and the count differ by a
/// multiple of two to the power of 32, so a count that both can hold stays as it is.
pub proof fn reinterpretation_keeps_the_bits(x: u32, y: i32, signed: i32, unsigned: u32)
    requires
        call_ensures(as_signed, (x,), signed),
        call_ensures(as_unsigned, (y,), unsigned),
    ensures
        (signed - x) % 0x1_0000_0000 == 0,
        (unsigned - y) % 0x1_0000_0000 == 0,
        x <= i32::MAX ==> signed == x,
        y >= 0 ==> unsigned == y,
{
}

/// A size loses nothing when it is counted with signed numbers, nor on the way
/// back, and neither way are its sides exchanged.
pub proof fn signed_size_keeps_its_sides(size: PhysicalSize, signed: SignedSize)
    ensures
        size.width <= i32::MAX ==> size.signed().width == size.width,
        size.height <= i32::MAX ==> size.signed().height == size.height,
        signed.width >= 0 ==> signed.unsigned().width == signed.width,
        signed.height >= 0 ==> signed.unsigned().height == signed.height,
        (size.signed().width - size.width) % 0x1_0000_0000 == 0,
        (size.signed().height - size.height) % 0x1_0000_0000 == 0,
        (signed.unsigned().width - signed.width) % 0x1_0000_0000 == 0,
        (signed.unsigned().height - signed.height) % 0x1_0000_0000 == 0,
        size.signed().unsigned() == size,
        signed.unsigned().signed() == signed,
{
}

/// The rectangle of a view covers the view: for a size whose sides fit into signed
/// numbers, a point lies in it exactly if it is a pixel of the view.
pub proof fn client_rect_covers_the_view(size: PhysicalSize, x: int, y: int)
    requires
        size.width <= i32::MAX,
        size.height <= i32::MAX,
    ensures
        ({
            let rect = size.client_rect();
            rect.left <= x < rect.right && rect.top <= y < rect.bottom <==> 0 <= x < size.width
                && 0 <= y < size.height
        }),
        size.client_rect().right - size.client_rect().left == size.width,
        size.client_rect().bottom - size.client_rect().top == size.height,
{
}

/// A size is empty exactly if it has no area, and a signed size is positive exactly
/// if neither side is zero or less.
pub proof fn empty_size_has_no_area(size: PhysicalSize, signed: SignedSize)
    ensures
        size.is_empty() <==> size.width * size.height == 0,
        signed.is_positive() <==> 1 <= signed.width && 1 <= signed.height,
{
    assert(size.width * size.height == 0 <==> size.width == 0 || size.height == 0)
        by (nonlinear_arith)
        requires
            0 <= size.width,
            0 <= size.height,
    ;
}

/// Raising a size to one pixel makes it the smallest size that is not empty and
/// holds the original: a side that has pixels is kept.
pub proof fn raised_size_is_the_smallest(size: PhysicalSize, other: PhysicalSize)
    ensures
        size.at_least_one().width * size.at_least_one().height > 0,
        size.at_least_one().width >= size.width,
        size.at_least_one().height >= size.height,
        other.width >= 1 && other.width >= size.width ==> size.at_least_one().width <= other.width,
        other.height >= 1 && other.height >= size.height ==> size.at_least_one().height
            <= other.height,
{
    let raised = size.at_least_one();
    assert(raised.width * raised.height > 0) by (nonlinear_arith)
        requires
            raised.width >= 1,
            raised.height >= 1,
    ;
}

} // verus!
