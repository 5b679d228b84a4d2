//! Reading a texture back into memory, and checking its pixels against the
//! background of the page that it shows.

use vstd::prelude::*;
use vstd::string::*;

use crate::geometry::PhysicalSize;
use crate::text::join2;
use crate::texture::TextureFormat;

verus! {

/// What the rows of a buffer that a texture is copied into are aligned to, in
/// bytes.
pub const ROW_ALIGNMENT: u32 = 256;

/// How far a channel may be off.
pub const TOLERANCE: u8 = 6;

/// How far from the edges the corners are sampled, where there is room.
pub const CORNER_INSET: u32 = 4;

/// The smallest multiple of the alignment that is at least `n`.
pub open spec fn aligned_up(n: int) -> int {
    (n + ROW_ALIGNMENT - 1) / (ROW_ALIGNMENT as int) * (ROW_ALIGNMENT as int)
}

/// How a texture of four bytes per pixel lies in a buffer.
#[derive(Clone, Copy, Debug, PartialEq, Eq, Structural)]
pub struct ReadbackLayout {
    pub size: PhysicalSize,
    pub padded_bytes_per_row: u32,
    pub buffer_size: u64,
}

/// One pixel: blue, green, red, alpha.
#[derive(Clone, Copy, Debug, PartialEq, Eq, Structural)]
pub struct BgraPixel {
    pub b: u8,
    pub g: u8,
    pub r: u8,
    pub a: u8,
}

/// The pixels that are checked.
#[derive(Clone, Copy, Debug, PartialEq, Eq, Structural)]
pub struct ReadbackSamples {
    pub top_left: BgraPixel,
    pub top_right: BgraPixel,
    pub bottom_left: BgraPixel,
    pub bottom_right: BgraPixel,
    pub center: BgraPixel,
}

/// What came of a check.
#[derive(Debug)]
pub struct ReadbackReport {
    pub samples: ReadbackSamples,
    pub corners_match: bool,
    pub verdict: Result<(), &'static str>,
}

/// Whether two channels differ by no more than the tolerance.
pub open spec fn channel_is_close(x: u8, y: u8) -> bool {
    -TOLERANCE <= x - y <= TOLERANCE
}

impl BgraPixel {
    /// Whether this pixel shows the color `rgb`, within the tolerance.
    pub open spec fn spec_is_close_to(self, rgb: (u8, u8, u8)) -> bool {
        &&& channel_is_close(self.b, rgb.2)
        &&& channel_is_close(self.g, rgb.1)
        &&& channel_is_close(self.r, rgb.0)
    }

    /// Whether this pixel shows the color `rgb`, within the tolerance.
    #[verifier::when_used_as_spec(spec_is_close_to)]
    pub fn is_close_to(self, rgb: (u8, u8, u8)) -> (r: bool)
        ensures
            r == self.is_close_to(rgb),
    {
        close_channels(self.b, rgb.2) && close_channels(self.g, rgb.1) && close_channels(
            self.r,
            rgb.0,
        )
    }
}

fn close_channels(x: u8, y: u8) -> (r: bool)
    ensures
        r == channel_is_close(x, y),
{
    if x >= y {
        x - y <= TOLERANCE
    } else {
        y - x <= TOLERANCE
    }
}

impl ReadbackSamples {
    /// Whether all four corners show the color `rgb`.
    pub open spec fn corners_match(self, rgb: (u8, u8, u8)) -> bool {
        &&& self.top_left.is_close_to(rgb)
        &&& self.top_right.is_close_to(rgb)
        &&& self.bottom_left.is_close_to(rgb)
        &&& self.bottom_right.is_close_to(rgb)
    }

    /// Whether any of the pixels has been written to at all.
    pub open spec fn any_alpha(self) -> bool {
        ||| self.top_left.a > 0
        ||| self.top_right.a > 0
        ||| self.bottom_left.a > 0
        ||| self.bottom_right.a > 0
        ||| self.center.a > 0
    }

    /// What the check says: the corners must show the background, and some pixel
    /// must have been written to.
    pub open spec fn verdict(self, rgb: (u8, u8, u8)) -> Result<(), &'static str> {
        if !self.corners_match(rgb) {
            Err(
                "WebView readback: corner pixels do not match the HTML background; capture content is likely wrong (zeros, swapped channels, or empty).",
            )
        } else if !self.any_alpha() {
            Err("WebView readback: every sampled alpha is zero; capture is likely uninitialized.")
        } else {
            Ok(())
        }
    }
}

/// How far from the edges the corners of a texture are sampled.
pub open spec fn corner_inset(size: PhysicalSize) -> int {
    let limit = if size.width <= size.height {
        size.width - 1
    } else {
        size.height - 1
    };
    if limit < CORNER_INSET {
        limit
    } else {
        CORNER_INSET as int
    }
}

impl ReadbackLayout {
    /// Rows are long enough for their pixels and aligned, and the buffer holds
    /// all of them.
    pub open spec fn valid(self) -> bool {
        &&& self.padded_bytes_per_row == aligned_up(4 * self.size.width)
        &&& self.buffer_size == self.padded_bytes_per_row * self.size.height
    }

    /// Where the pixel in column `x` of row `y` begins.
    pub open spec fn offset(self, x: int, y: int) -> int {
        y * self.padded_bytes_per_row + 4 * x
    }

    /// The pixel in column `x` of row `y` of a buffer.
    pub open spec fn pixel(self, data: Seq<u8>, x: int, y: int) -> BgraPixel {
        let offset = self.offset(x, y);
        BgraPixel {
            b: data[offset],
            g: data[offset + 1],
            r: data[offset + 2],
            a: data[offset + 3],
        }
    }

    /// The pixels of a buffer that are checked: one near each corner, and the one
    /// in the middle.
    pub open spec fn samples(self, data: Seq<u8>) -> ReadbackSamples {
        let inset = corner_inset(self.size);
        let right = self.size.width - 1 - inset;
        let bottom = self.size.height - 1 - inset;
        ReadbackSamples {
            top_left: self.pixel(data, inset, inset),
            top_right: self.pixel(data, right, inset),
            bottom_left: self.pixel(data, inset, bottom),
            bottom_right: self.pixel(data, right, bottom),
            center: self.pixel(
                data,
                self.size.width as int / 2,
                self.size.height as int / 2,
            ),
        }
    }

    /// The layout of a texture that is to be checked. Only 8-bit BGRA is.
    pub fn for_texture(format: TextureFormat, size: PhysicalSize) -> (r: Result<Self, String>)
        requires
            format is Bgra8Unorm ==> aligned_up(4 * size.width) <= u32::MAX,
        ensures
            r is Ok <==> format is Bgra8Unorm,
            r matches Ok(layout) ==> layout.size == size && layout.valid(),
            r matches Err(message) ==> message@
                == "WebView readback: expected Bgra8Unorm imported texture, got "@
                + format.shown(),
    {
        if !matches!(format, TextureFormat::Bgra8Unorm) {
            return Err(
                join2(
                    "WebView readback: expected Bgra8Unorm imported texture, got ",
                    format.show().as_str(),
                ),
            );
        }
        let unpadded: u32 = 4 * size.width;
        let whole: u32 = unpadded / ROW_ALIGNMENT;
        let padded_bytes_per_row: u32 = if unpadded % ROW_ALIGNMENT == 0 {
            unpadded
        } else {
            (whole + 1) * ROW_ALIGNMENT
        };
        assert(padded_bytes_per_row * size.height <= u64::MAX) by (nonlinear_arith)
            requires
                padded_bytes_per_row <= u32::MAX,
                size.height <= u32::MAX,
        ;
        assert(0 <= padded_bytes_per_row * size.height) by (nonlinear_arith);
        let buffer_size: u64 = (padded_bytes_per_row as u64) * (size.height as u64);
        Ok(ReadbackLayout { size, padded_bytes_per_row, buffer_size })
    }

    fn sample(&self, data: &Vec<u8>, x: u32, y: u32) -> (r: BgraPixel)
        requires
            self.valid(),
            data@.len() == self.buffer_size,
            x < self.size.width,
            y < self.size.height,
        ensures
            r == self.pixel(data@, x as int, y as int),
    {
        proof {
            pixel_lies_in_buffer(*self, x as int, y as int);
        }
        assert(0 <= y * self.padded_bytes_per_row) by (nonlinear_arith);
        assert(y * self.padded_bytes_per_row <= u64::MAX) by (nonlinear_arith)
            requires
                y <= u32::MAX,
                self.padded_bytes_per_row <= u32::MAX,
        ;
        let offset: usize = ((y as u64) * (self.padded_bytes_per_row as u64) + 4 * (x
            as u64)) as usize;
        let total: usize = data.len();
        assert(offset + 4 <= total);
        BgraPixel {
            b: data[offset],
            g: data[offset + 1],
            r: data[offset + 2],
            a: data[offset + 3],
        }
    }

    /// Checks the bytes of a buffer with this layout against a page whose
    /// background is `expected_rgb`.
    pub fn validate_imported_pixels(&self, data: &Vec<u8>, expected_rgb: (u8, u8, u8)) -> (r:
        ReadbackReport)
        requires
            self.valid(),
            !self.size.is_empty(),
            data@.len() == self.buffer_size,
        ensures
            r.samples == self.samples(data@),
            r.corners_match == r.samples.corners_match(expected_rgb),
            r.verdict == r.samples.verdict(expected_rgb),
    {
        let width: u32 = self.size.width;
        let height: u32 = self.size.height;
        let mut inset: u32 = CORNER_INSET;
        if width - 1 < inset {
            inset = width - 1;
        }
        if height - 1 < inset {
            inset = height - 1;
        }
        let right: u32 = width - 1 - inset;
        let bottom: u32 = height - 1 - inset;
        let samples = ReadbackSamples {
            top_left: self.sample(data, inset, inset),
            top_right: self.sample(data, right, inset),
            bottom_left: self.sample(data, inset, bottom),
            bottom_right: self.sample(data, right, bottom),
            center: self.sample(data, width / 2, height / 2),
        };
        let corners_match = samples.top_left.is_close_to(expected_rgb)
            && samples.top_right.is_close_to(expected_rgb) && samples.bottom_left.is_close_to(
            expected_rgb,
        ) && samples.bottom_right.is_close_to(expected_rgb);
        let any_alpha = samples.top_left.a > 0 || samples.top_right.a > 0
            || samples.bottom_left.a > 0 || samples.bottom_right.a > 0 || samples.center.a > 0;
        let verdict = if !corners_match {
            Err(
                "WebView readback: corner pixels do not match the HTML background; capture content is likely wrong (zeros, swapped channels, or empty).",
            )
        } else if !any_alpha {
            Err("WebView readback: every sampled alpha is zero; capture is likely uninitialized.")
        } else {
            Ok(())
        };
        ReadbackReport { samples, corners_match, verdict }
    }
}

/// Rows do not overlap and do not run out of the buffer: every pixel's four bytes
/// lie within the row that it belongs to.
pub proof fn pixel_lies_in_buffer(layout: ReadbackLayout, x: int, y: int)
    requires
        layout.valid(),
        0 <= x < layout.size.width,
        0 <= y < layout.size.height,
    ensures
        y * layout.padded_bytes_per_row <= layout.offset(x, y),
        layout.offset(x, y) + 4 <= (y + 1) * layout.padded_bytes_per_row,
        (y + 1) * layout.padded_bytes_per_row <= layout.buffer_size,
{
    let stride = layout.padded_bytes_per_row as int;
    let height = layout.size.height as int;
    assert(4 * layout.size.width <= stride);
    assert((y + 1) * stride == y * stride + stride) by (nonlinear_arith);
    assert((y + 1) * stride <= height * stride) by (nonlinear_arith)
        requires
            y + 1 <= height,
            0 <= stride,
    ;
    assert(height * stride == stride * height) by (nonlinear_arith);
}

/// Rows are aligned, long enough for their pixels, and not longer than needed.
pub proof fn rows_are_aligned_and_tight(layout: ReadbackLayout)
    requires
        layout.valid(),
    ensures
        layout.padded_bytes_per_row as int % ROW_ALIGNMENT as int == 0,
        4 * layout.size.width <= layout.padded_bytes_per_row < 4 * layout.size.width
            + ROW_ALIGNMENT,
{
}

/// The padding of the rows is never looked at: buffers that hold the same pixels
/// are judged the same.
pub proof fn padding_does_not_matter(
    layout: ReadbackLayout,
    first: Seq<u8>,
    second: Seq<u8>,
    rgb: (u8, u8, u8),
)
    requires
        layout.valid(),
        !layout.size.is_empty(),
        forall|x: int, y: int|
            0 <= x < layout.size.width && 0 <= y < layout.size.height ==> #[trigger] layout.pixel(
                first,
                x,
                y,
            ) == layout.pixel(second, x, y),
    ensures
        layout.samples(first) == layout.samples(second),
        layout.samples(first).verdict(rgb) == layout.samples(second).verdict(rgb),
{
}

/// A texture that shows nothing but the background passes. One whose pixels are
/// all zero does not, whatever the background.
pub proof fn background_passes_and_zeros_do_not(
    layout: ReadbackLayout,
    data: Seq<u8>,
    rgb: (u8, u8, u8),
)
    requires
        layout.valid(),
        !layout.size.is_empty(),
    ensures
        (forall|x: int, y: int|
            0 <= x < layout.size.width && 0 <= y < layout.size.height ==> #[trigger] layout.pixel(
                data,
                x,
                y,
            ) == (BgraPixel { b: rgb.2, g: rgb.1, r: rgb.0, a: 255 })) ==> layout.samples(
            data,
        ).verdict(rgb) is Ok,
        (forall|x: int, y: int|
            0 <= x < layout.size.width && 0 <= y < layout.size.height ==> #[trigger] layout.pixel(
                data,
                x,
                y,
            ) == (BgraPixel { b: 0, g: 0, r: 0, a: 0 })) ==> layout.samples(data).verdict(
            rgb,
        ) is Err,
{
}

/// Pixels lie side by side and rows one below the other: from a pixel to the next in
/// its row it is four bytes, from a row to the next one row length, and the first
/// pixel is where the buffer begins.
pub proof fn pixels_lie_in_rows(layout: ReadbackLayout, x: int, y: int)
    ensures
        layout.offset(0, 0) == 0,
        layout.offset(x + 1, y) == layout.offset(x, y) + 4,
        layout.offset(x, y + 1) == layout.offset(x, y) + layout.padded_bytes_per_row,
{
    let stride = layout.padded_bytes_per_row as int;
    assert((y + 1) * stride == y * stride + stride) by (nonlinear_arith);
    assert(0 * stride == 0) by (nonlinear_arith);
}

/// A layout is made for `Bgra8Unorm` textures alone, of any size: its rows are the
/// shortest aligned ones, and its buffer holds as many of them as the texture has.
pub proof fn layout_fits_the_texture(
    format: TextureFormat,
    size: PhysicalSize,
    layout: ReadbackLayout,
    n: int,
)
    requires
        call_ensures(
            ReadbackLayout::for_texture,
            (format, size),
            Ok::<ReadbackLayout, String>(layout),
        ),
    ensures
        format == TextureFormat::Bgra8Unorm,
        layout.size == size,
        layout.padded_bytes_per_row as int % 256 == 0,
        layout.padded_bytes_per_row >= 4 * size.width,
        n % 256 == 0 && n >= 4 * size.width ==> layout.padded_bytes_per_row <= n,
        layout.buffer_size == layout.padded_bytes_per_row * size.height,
{
}

/// The four bytes of a pixel are blue, green, red and alpha, in this order.
pub proof fn pixel_bytes_are_bgra(layout: ReadbackLayout, data: Seq<u8>, x: int, y: int)
    requires
        0 <= layout.offset(x, y),
        layout.offset(x, y) + 4 <= data.len(),
    ensures
        ({
            let pixel = layout.pixel(data, x, y);
            data.subrange(layout.offset(x, y), layout.offset(x, y) + 4) == seq![
                pixel.b,
                pixel.g,
                pixel.r,
                pixel.a,
            ]
        }),
{
}

/// A pixel shows a color exactly if its red, green and blue are each no more than six
/// off; its alpha does not matter.
pub proof fn close_pixel_is_close_in_each_channel(pixel: BgraPixel, rgb: (u8, u8, u8))
    ensures
        pixel.is_close_to(rgb) <==> {
            &&& rgb.0 - 6 <= pixel.r <= rgb.0 + 6
            &&& rgb.1 - 6 <= pixel.g <= rgb.1 + 6
            &&& rgb.2 - 6 <= pixel.b <= rgb.2 + 6
        },
{
}

/// The pixels that are checked lie in the texture: the corners as far from both of
/// their edges as each other, four pixels where there is room and as far as the
/// shorter side allows where there is not, and the last in the middle.
pub proof fn corners_and_middle_are_sampled(
    layout: ReadbackLayout,
    data: &Vec<u8>,
    rgb: (u8, u8, u8),
    report: ReadbackReport,
    inset: int,
)
    requires
        layout.valid(),
        layout.size.width > 0,
        layout.size.height > 0,
        0 <= inset <= 4,
        inset < layout.size.width,
        inset < layout.size.height,
        inset == 4 || inset + 1 == layout.size.width || inset + 1 == layout.size.height,
        data@.len() == layout.buffer_size,
        call_ensures(ReadbackLayout::validate_imported_pixels, (&layout, data, rgb), report),
    ensures
        report.samples.top_left == layout.pixel(data@, inset, inset),
        report.samples.top_right == layout.pixel(data@, layout.size.width - 1 - inset, inset),
        report.samples.bottom_left == layout.pixel(data@, inset, layout.size.height - 1 - inset),
        report.samples.bottom_right == layout.pixel(
            data@,
            layout.size.width - 1 - inset,
            layout.size.height - 1 - inset,
        ),
        report.samples.center == layout.pixel(
            data@,
            layout.size.width as int / 2,
            layout.size.height as int / 2,
        ),
{
}

/// A texture passes exactly if all four of its corners show the background and one of
/// the sampled pixels has been written to. The two ways to fail are told apart.
pub proof fn texture_passes_by_corners_and_alpha(
    layout: ReadbackLayout,
    data: &Vec<u8>,
    rgb: (u8, u8, u8),
    report: ReadbackReport,
)
    requires
        call_ensures(ReadbackLayout::validate_imported_pixels, (&layout, data, rgb), report),
    ensures
        ({
            let s = report.samples;
            let corners = s.top_left.is_close_to(rgb) && s.top_right.is_close_to(rgb)
                && s.bottom_left.is_close_to(rgb) && s.bottom_right.is_close_to(rgb);
            let written = s.top_left.a != 0 || s.top_right.a != 0 || s.bottom_left.a != 0
                || s.bottom_right.a != 0 || s.center.a != 0;
            &&& report.corners_match == corners
            &&& report.verdict is Ok <==> corners && written
            &&& report.verdict == Err::<(), &'static str>(
                "WebView readback: every sampled alpha is zero; capture is likely uninitialized.",
            ) <== corners && !written
            &&& !corners ==> report.verdict == Err::<(), &'static str>(
                "WebView readback: corner pixels do not match the HTML background; capture content is likely wrong (zeros, swapped channels, or empty).",
            )
        }),
{
}

} // verus!
