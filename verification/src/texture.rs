//! Pixel formats, texture shapes and CPU images.

use vstd::prelude::*;
use vstd::string::*;

use crate::geometry::PhysicalSize;
use crate::text::join3;

verus! {

/// The block size of an ASTC format.
#[derive(Clone, Copy, Debug, PartialEq, Eq, Structural)]
pub enum AstcBlock {
    B4x4,
    B5x4,
    B5x5,
    B6x5,
    B6x6,
    B8x5,
    B8x6,
    B8x8,
    B10x5,
    B10x6,
    B10x8,
    B10x10,
    B12x10,
    B12x12,
}

/// The channel encoding of an ASTC format.
#[derive(Clone, Copy, Debug, PartialEq, Eq, Structural)]
pub enum AstcChannel {
    Unorm,
    UnormSrgb,
    Hdr,
}

impl AstcBlock {
    /// The variant's name.
    pub open spec fn spec_name(self) -> &'static str {
        match self {
            AstcBlock::B4x4 => "B4x4",
            AstcBlock::B5x4 => "B5x4",
            AstcBlock::B5x5 => "B5x5",
            AstcBlock::B6x5 => "B6x5",
            AstcBlock::B6x6 => "B6x6",
            AstcBlock::B8x5 => "B8x5",
            AstcBlock::B8x6 => "B8x6",
            AstcBlock::B8x8 => "B8x8",
            AstcBlock::B10x5 => "B10x5",
            AstcBlock::B10x6 => "B10x6",
            AstcBlock::B10x8 => "B10x8",
            AstcBlock::B10x10 => "B10x10",
            AstcBlock::B12x10 => "B12x10",
            AstcBlock::B12x12 => "B12x12",
        }
    }

    /// The variant's name.
    #[verifier::when_used_as_spec(spec_name)]
    pub fn name(self) -> (r: &'static str)
        ensures
            r == self.name(),
    {
        match self {
            AstcBlock::B4x4 => "B4x4",
            AstcBlock::B5x4 => "B5x4",
            AstcBlock::B5x5 => "B5x5",
            AstcBlock::B6x5 => "B6x5",
            AstcBlock::B6x6 => "B6x6",
            AstcBlock::B8x5 => "B8x5",
            AstcBlock::B8x6 => "B8x6",
            AstcBlock::B8x8 => "B8x8",
            AstcBlock::B10x5 => "B10x5",
            AstcBlock::B10x6 => "B10x6",
            AstcBlock::B10x8 => "B10x8",
            AstcBlock::B10x10 => "B10x10",
            AstcBlock::B12x10 => "B12x10",
            AstcBlock::B12x12 => "B12x12",
        }
    }
}

impl AstcChannel {
    /// The variant's name.
    pub open spec fn spec_name(self) -> &'static str {
        match self {
            AstcChannel::Unorm => "Unorm",
            AstcChannel::UnormSrgb => "UnormSrgb",
            AstcChannel::Hdr => "Hdr",
        }
    }

    /// The variant's name.
    #[verifier::when_used_as_spec(spec_name)]
    pub fn name(self) -> (r: &'static str)
        ensures
            r == self.name(),
    {
        match self {
            AstcChannel::Unorm => "Unorm",
            AstcChannel::UnormSrgb => "UnormSrgb",
            AstcChannel::Hdr => "Hdr",
        }
    }
}

/// The pixel format of a texture, with the names that `wgpu` gives the formats.
#[derive(Clone, Copy, Debug, PartialEq, Eq, Structural)]
pub enum TextureFormat {
    R8Unorm,
    R8Snorm,
    R8Uint,
    R8Sint,
    R16Uint,
    R16Sint,
    R16Unorm,
    R16Snorm,
    R16Float,
    Rg8Unorm,
    Rg8Snorm,
    Rg8Uint,
    Rg8Sint,
    R32Uint,
    R32Sint,
    R32Float,
    Rg16Uint,
    Rg16Sint,
    Rg16Unorm,
    Rg16Snorm,
    Rg16Float,
    Rgba8Unorm,
    Rgba8UnormSrgb,
    Rgba8Snorm,
    Rgba8Uint,
    Rgba8Sint,
    Bgra8Unorm,
    Bgra8UnormSrgb,
    Rgb9e5Ufloat,
    Rgb10a2Uint,
    Rgb10a2Unorm,
    Rg11b10Ufloat,
    R64Uint,
    Rg32Uint,
    Rg32Sint,
    Rg32Float,
    Rgba16Uint,
    Rgba16Sint,
    Rgba16Unorm,
    Rgba16Snorm,
    Rgba16Float,
    Rgba32Uint,
    Rgba32Sint,
    Rgba32Float,
    Stencil8,
    Depth16Unorm,
    Depth24Plus,
    Depth24PlusStencil8,
    Depth32Float,
    Depth32FloatStencil8,
    NV12,
    P010,
    Bc1RgbaUnorm,
    Bc1RgbaUnormSrgb,
    Bc2RgbaUnorm,
    Bc2RgbaUnormSrgb,
    Bc3RgbaUnorm,
    Bc3RgbaUnormSrgb,
    Bc4RUnorm,
    Bc4RSnorm,
    Bc5RgUnorm,
    Bc5RgSnorm,
    Bc6hRgbUfloat,
    Bc6hRgbFloat,
    Bc7RgbaUnorm,
    Bc7RgbaUnormSrgb,
    Etc2Rgb8Unorm,
    Etc2Rgb8UnormSrgb,
    Etc2Rgb8A1Unorm,
    Etc2Rgb8A1UnormSrgb,
    Etc2Rgba8Unorm,
    Etc2Rgba8UnormSrgb,
    EacR11Unorm,
    EacR11Snorm,
    EacRg11Unorm,
    EacRg11Snorm,
    Astc { block: AstcBlock, channel: AstcChannel },
}

impl TextureFormat {
    /// Whether the colour channels are stored with the sRGB transfer curve.
    pub open spec fn spec_is_srgb(self) -> bool {
        match self {
            TextureFormat::Astc { channel, .. } => channel is UnormSrgb,
            TextureFormat::Rgba8UnormSrgb => true,
            TextureFormat::Bgra8UnormSrgb => true,
            TextureFormat::Bc1RgbaUnormSrgb => true,
            TextureFormat::Bc2RgbaUnormSrgb => true,
            TextureFormat::Bc3RgbaUnormSrgb => true,
            TextureFormat::Bc7RgbaUnormSrgb => true,
            TextureFormat::Etc2Rgb8UnormSrgb => true,
            TextureFormat::Etc2Rgb8A1UnormSrgb => true,
            TextureFormat::Etc2Rgba8UnormSrgb => true,
            _ => false,
        }
    }

    /// Whether the colour channels are stored with the sRGB transfer curve.
    #[verifier::when_used_as_spec(spec_is_srgb)]
    pub fn is_srgb(self) -> (r: bool)
        ensures
            r == self.is_srgb(),
    {
        match self {
            TextureFormat::Astc { channel, .. } => matches!(channel, AstcChannel::UnormSrgb),
            TextureFormat::Rgba8UnormSrgb => true,
            TextureFormat::Bgra8UnormSrgb => true,
            TextureFormat::Bc1RgbaUnormSrgb => true,
            TextureFormat::Bc2RgbaUnormSrgb => true,
            TextureFormat::Bc3RgbaUnormSrgb => true,
            TextureFormat::Bc7RgbaUnormSrgb => true,
            TextureFormat::Etc2Rgb8UnormSrgb => true,
            TextureFormat::Etc2Rgb8A1UnormSrgb => true,
            TextureFormat::Etc2Rgba8UnormSrgb => true,
            _ => false,
        }
    }

    /// The variant's name, without its fields.
    pub open spec fn spec_name(self) -> &'static str {
        match self {
            TextureFormat::R8Unorm => "R8Unorm",
            TextureFormat::R8Snorm => "R8Snorm",
            TextureFormat::R8Uint => "R8Uint",
            TextureFormat::R8Sint => "R8Sint",
            TextureFormat::R16Uint => "R16Uint",
            TextureFormat::R16Sint => "R16Sint",
            TextureFormat::R16Unorm => "R16Unorm",
            TextureFormat::R16Snorm => "R16Snorm",
            TextureFormat::R16Float => "R16Float",
            TextureFormat::Rg8Unorm => "Rg8Unorm",
            TextureFormat::Rg8Snorm => "Rg8Snorm",
            TextureFormat::Rg8Uint => "Rg8Uint",
            TextureFormat::Rg8Sint => "Rg8Sint",
            TextureFormat::R32Uint => "R32Uint",
            TextureFormat::R32Sint => "R32Sint",
            TextureFormat::R32Float => "R32Float",
            TextureFormat::Rg16Uint => "Rg16Uint",
            TextureFormat::Rg16Sint => "Rg16Sint",
            TextureFormat::Rg16Unorm => "Rg16Unorm",
            TextureFormat::Rg16Snorm => "Rg16Snorm",
            TextureFormat::Rg16Float => "Rg16Float",
            TextureFormat::Rgba8Unorm => "Rgba8Unorm",
            TextureFormat::Rgba8UnormSrgb => "Rgba8UnormSrgb",
            TextureFormat::Rgba8Snorm => "Rgba8Snorm",
            TextureFormat::Rgba8Uint => "Rgba8Uint",
            TextureFormat::Rgba8Sint => "Rgba8Sint",
            TextureFormat::Bgra8Unorm => "Bgra8Unorm",
            TextureFormat::Bgra8UnormSrgb => "Bgra8UnormSrgb",
            TextureFormat::Rgb9e5Ufloat => "Rgb9e5Ufloat",
            TextureFormat::Rgb10a2Uint => "Rgb10a2Uint",
            TextureFormat::Rgb10a2Unorm => "Rgb10a2Unorm",
            TextureFormat::Rg11b10Ufloat => "Rg11b10Ufloat",
            TextureFormat::R64Uint => "R64Uint",
            TextureFormat::Rg32Uint => "Rg32Uint",
            TextureFormat::Rg32Sint => "Rg32Sint",
            TextureFormat::Rg32Float => "Rg32Float",
            TextureFormat::Rgba16Uint => "Rgba16Uint",
            TextureFormat::Rgba16Sint => "Rgba16Sint",
            TextureFormat::Rgba16Unorm => "Rgba16Unorm",
            TextureFormat::Rgba16Snorm => "Rgba16Snorm",
            TextureFormat::Rgba16Float => "Rgba16Float",
            TextureFormat::Rgba32Uint => "Rgba32Uint",
            TextureFormat::Rgba32Sint => "Rgba32Sint",
            TextureFormat::Rgba32Float => "Rgba32Float",
            TextureFormat::Stencil8 => "Stencil8",
            TextureFormat::Depth16Unorm => "Depth16Unorm",
            TextureFormat::Depth24Plus => "Depth24Plus",
            TextureFormat::Depth24PlusStencil8 => "Depth24PlusStencil8",
            TextureFormat::Depth32Float => "Depth32Float",
            TextureFormat::Depth32FloatStencil8 => "Depth32FloatStencil8",
            TextureFormat::NV12 => "NV12",
            TextureFormat::P010 => "P010",
            TextureFormat::Bc1RgbaUnorm => "Bc1RgbaUnorm",
            TextureFormat::Bc1RgbaUnormSrgb => "Bc1RgbaUnormSrgb",
            TextureFormat::Bc2RgbaUnorm => "Bc2RgbaUnorm",
            TextureFormat::Bc2RgbaUnormSrgb => "Bc2RgbaUnormSrgb",
            TextureFormat::Bc3RgbaUnorm => "Bc3RgbaUnorm",
            TextureFormat::Bc3RgbaUnormSrgb => "Bc3RgbaUnormSrgb",
            TextureFormat::Bc4RUnorm => "Bc4RUnorm",
            TextureFormat::Bc4RSnorm => "Bc4RSnorm",
            TextureFormat::Bc5RgUnorm => "Bc5RgUnorm",
            TextureFormat::Bc5RgSnorm => "Bc5RgSnorm",
            TextureFormat::Bc6hRgbUfloat => "Bc6hRgbUfloat",
            TextureFormat::Bc6hRgbFloat => "Bc6hRgbFloat",
            TextureFormat::Bc7RgbaUnorm => "Bc7RgbaUnorm",
            TextureFormat::Bc7RgbaUnormSrgb => "Bc7RgbaUnormSrgb",
            TextureFormat::Etc2Rgb8Unorm => "Etc2Rgb8Unorm",
            TextureFormat::Etc2Rgb8UnormSrgb => "Etc2Rgb8UnormSrgb",
            TextureFormat::Etc2Rgb8A1Unorm => "Etc2Rgb8A1Unorm",
            TextureFormat::Etc2Rgb8A1UnormSrgb => "Etc2Rgb8A1UnormSrgb",
            TextureFormat::Etc2Rgba8Unorm => "Etc2Rgba8Unorm",
            TextureFormat::Etc2Rgba8UnormSrgb => "Etc2Rgba8UnormSrgb",
            TextureFormat::EacR11Unorm => "EacR11Unorm",
            TextureFormat::EacR11Snorm => "EacR11Snorm",
            TextureFormat::EacRg11Unorm => "EacRg11Unorm",
            TextureFormat::EacRg11Snorm => "EacRg11Snorm",
            TextureFormat::Astc { .. } => "Astc",
        }
    }

    /// The variant's name, without its fields.
    #[verifier::when_used_as_spec(spec_name)]
    pub fn name(self) -> (r: &'static str)
        ensures
            r == self.name(),
    {
        match self {
            TextureFormat::R8Unorm => "R8Unorm",
            TextureFormat::R8Snorm => "R8Snorm",
            TextureFormat::R8Uint => "R8Uint",
            TextureFormat::R8Sint => "R8Sint",
            TextureFormat::R16Uint => "R16Uint",
            TextureFormat::R16Sint => "R16Sint",
            TextureFormat::R16Unorm => "R16Unorm",
            TextureFormat::R16Snorm => "R16Snorm",
            TextureFormat::R16Float => "R16Float",
            TextureFormat::Rg8Unorm => "Rg8Unorm",
            TextureFormat::Rg8Snorm => "Rg8Snorm",
            TextureFormat::Rg8Uint => "Rg8Uint",
            TextureFormat::Rg8Sint => "Rg8Sint",
            TextureFormat::R32Uint => "R32Uint",
            TextureFormat::R32Sint => "R32Sint",
            TextureFormat::R32Float => "R32Float",
            TextureFormat::Rg16Uint => "Rg16Uint",
            TextureFormat::Rg16Sint => "Rg16Sint",
            TextureFormat::Rg16Unorm => "Rg16Unorm",
            TextureFormat::Rg16Snorm => "Rg16Snorm",
            TextureFormat::Rg16Float => "Rg16Float",
            TextureFormat::Rgba8Unorm => "Rgba8Unorm",
            TextureFormat::Rgba8UnormSrgb => "Rgba8UnormSrgb",
            TextureFormat::Rgba8Snorm => "Rgba8Snorm",
            TextureFormat::Rgba8Uint => "Rgba8Uint",
            TextureFormat::Rgba8Sint => "Rgba8Sint",
            TextureFormat::Bgra8Unorm => "Bgra8Unorm",
            TextureFormat::Bgra8UnormSrgb => "Bgra8UnormSrgb",
            TextureFormat::Rgb9e5Ufloat => "Rgb9e5Ufloat",
            TextureFormat::Rgb10a2Uint => "Rgb10a2Uint",
            TextureFormat::Rgb10a2Unorm => "Rgb10a2Unorm",
            TextureFormat::Rg11b10Ufloat => "Rg11b10Ufloat",
            TextureFormat::R64Uint => "R64Uint",
            TextureFormat::Rg32Uint => "Rg32Uint",
            TextureFormat::Rg32Sint => "Rg32Sint",
            TextureFormat::Rg32Float => "Rg32Float",
            TextureFormat::Rgba16Uint => "Rgba16Uint",
            TextureFormat::Rgba16Sint => "Rgba16Sint",
            TextureFormat::Rgba16Unorm => "Rgba16Unorm",
            TextureFormat::Rgba16Snorm => "Rgba16Snorm",
            TextureFormat::Rgba16Float => "Rgba16Float",
            TextureFormat::Rgba32Uint => "Rgba32Uint",
            TextureFormat::Rgba32Sint => "Rgba32Sint",
            TextureFormat::Rgba32Float => "Rgba32Float",
            TextureFormat::Stencil8 => "Stencil8",
            TextureFormat::Depth16Unorm => "Depth16Unorm",
            TextureFormat::Depth24Plus => "Depth24Plus",
            TextureFormat::Depth24PlusStencil8 => "Depth24PlusStencil8",
            TextureFormat::Depth32Float => "Depth32Float",
            TextureFormat::Depth32FloatStencil8 => "Depth32FloatStencil8",
            TextureFormat::NV12 => "NV12",
            TextureFormat::P010 => "P010",
            TextureFormat::Bc1RgbaUnorm => "Bc1RgbaUnorm",
            TextureFormat::Bc1RgbaUnormSrgb => "Bc1RgbaUnormSrgb",
            TextureFormat::Bc2RgbaUnorm => "Bc2RgbaUnorm",
            TextureFormat::Bc2RgbaUnormSrgb => "Bc2RgbaUnormSrgb",
            TextureFormat::Bc3RgbaUnorm => "Bc3RgbaUnorm",
            TextureFormat::Bc3RgbaUnormSrgb => "Bc3RgbaUnormSrgb",
            TextureFormat::Bc4RUnorm => "Bc4RUnorm",
            TextureFormat::Bc4RSnorm => "Bc4RSnorm",
            TextureFormat::Bc5RgUnorm => "Bc5RgUnorm",
            TextureFormat::Bc5RgSnorm => "Bc5RgSnorm",
            TextureFormat::Bc6hRgbUfloat => "Bc6hRgbUfloat",
            TextureFormat::Bc6hRgbFloat => "Bc6hRgbFloat",
            TextureFormat::Bc7RgbaUnorm => "Bc7RgbaUnorm",
            TextureFormat::Bc7RgbaUnormSrgb => "Bc7RgbaUnormSrgb",
            TextureFormat::Etc2Rgb8Unorm => "Etc2Rgb8Unorm",
            TextureFormat::Etc2Rgb8UnormSrgb => "Etc2Rgb8UnormSrgb",
            TextureFormat::Etc2Rgb8A1Unorm => "Etc2Rgb8A1Unorm",
            TextureFormat::Etc2Rgb8A1UnormSrgb => "Etc2Rgb8A1UnormSrgb",
            TextureFormat::Etc2Rgba8Unorm => "Etc2Rgba8Unorm",
            TextureFormat::Etc2Rgba8UnormSrgb => "Etc2Rgba8UnormSrgb",
            TextureFormat::EacR11Unorm => "EacR11Unorm",
            TextureFormat::EacR11Snorm => "EacR11Snorm",
            TextureFormat::EacRg11Unorm => "EacRg11Unorm",
            TextureFormat::EacRg11Snorm => "EacRg11Snorm",
            TextureFormat::Astc { .. } => "Astc",
        }
    }

    /// How messages show this format: its name, and for ASTC its fields.
    pub open spec fn shown(self) -> Seq<char> {
        match self {
            TextureFormat::Astc { block, channel } => "Astc { block: "@ + block.name()@
                + ", channel: "@ + channel.name()@ + " }"@,
            _ => self.name()@,
        }
    }

    /// How messages show this format: its name, and for ASTC its fields.
    pub fn show(self) -> (r: String)
        ensures
            r@ == self.shown(),
    {
        match self {
            TextureFormat::Astc { block, channel } => {
                let mut out = join3("Astc { block: ", block.name(), ", channel: ");
                out.append(channel.name());
                out.append(" }");
                out
            },
            _ => self.name().to_owned(),
        }
    }
}

/// What a texture may be used for.
#[derive(Clone, Copy, Debug, PartialEq, Eq, Structural)]
pub struct TextureUsage {
    pub texture_binding: bool,
    pub copy_src: bool,
    pub copy_dst: bool,
}

/// Everything that a two-dimensional texture is created with.
#[derive(Clone, Copy, Debug)]
pub struct TextureShape {
    pub label: &'static str,
    pub size: PhysicalSize,
    pub depth_or_array_layers: u32,
    pub mip_level_count: u32,
    pub sample_count: u32,
    pub format: TextureFormat,
    pub usage: TextureUsage,
}

impl TextureShape {
    /// A plain texture: one layer, one mip level, one sample per pixel.
    pub open spec fn spec_plain(
        label: &'static str,
        size: PhysicalSize,
        format: TextureFormat,
        usage: TextureUsage,
    ) -> TextureShape {
        TextureShape {
            label,
            size,
            depth_or_array_layers: 1,
            mip_level_count: 1,
            sample_count: 1,
            format,
            usage,
        }
    }

    /// A plain texture: one layer, one mip level, one sample per pixel.
    #[verifier::when_used_as_spec(spec_plain)]
    pub fn plain(
        label: &'static str,
        size: PhysicalSize,
        format: TextureFormat,
        usage: TextureUsage,
    ) -> (r: TextureShape)
        ensures
            r == TextureShape::plain(label, size, format, usage),
    {
        TextureShape {
            label,
            size,
            depth_or_array_layers: 1,
            mip_level_count: 1,
            sample_count: 1,
            format,
            usage,
        }
    }
}

/// A CPU-side image of four bytes per pixel: red, green, blue, alpha.
#[derive(Debug, PartialEq, Eq)]
pub struct RgbaImage {
    size: PhysicalSize,
    pixels: Vec<u8>,
}

impl View for RgbaImage {
    type V = (PhysicalSize, Seq<u8>);

    closed spec fn view(&self) -> (PhysicalSize, Seq<u8>) {
        (self.size, self.pixels@)
    }
}

impl Clone for RgbaImage {
    fn clone(&self) -> (r: Self)
        ensures
            r@ == self@,
    {
        proof {
            use_type_invariant(self);
        }
        let pixels = self.pixels.clone();
        assert(pixels@ =~= self.pixels@);
        RgbaImage { size: self.size, pixels }
    }
}

impl RgbaImage {
    /// The image holds exactly the bytes of its pixels, rows from the top.
    #[verifier::type_invariant]
    pub closed spec fn well_formed(&self) -> bool {
        self.pixels@.len() == 4 * self.size.width * self.size.height
    }

    /// An image over raw bytes, if there are as many bytes as the size calls for.
    pub fn from_raw(size: PhysicalSize, pixels: Vec<u8>) -> (r: Option<RgbaImage>)
        ensures
            r is Some <==> pixels@.len() == 4 * size.width * size.height,
            r matches Some(image) ==> image@ == (size, pixels@),
    {
        assert(4 * size.width * size.height <= u128::MAX) by (nonlinear_arith)
            requires
                size.width <= u32::MAX,
                size.height <= u32::MAX,
        ;
        assert(0 <= size.width * size.height <= u64::MAX) by (nonlinear_arith)
            requires
                0 <= size.width <= u32::MAX,
                0 <= size.height <= u32::MAX,
        ;
        assert(4 * (size.width * size.height) == 4 * size.width * size.height) by (nonlinear_arith);
        let area: u128 = (size.width as u128) * (size.height as u128);
        if (pixels.len() as u128) == 4 * area {
            Some(RgbaImage { size, pixels })
        } else {
            None
        }
    }

    /// Width and height in pixels, for which there are just enough bytes.
    pub fn dimensions(&self) -> (r: PhysicalSize)
        ensures
            r == self@.0,
            self@.1.len() == 4 * r.width * r.height,
    {
        proof {
            use_type_invariant(self);
        }
        self.size
    }

    /// The bytes of the pixels, rows from the top.
    pub fn as_raw(&self) -> (r: &Vec<u8>)
        ensures
            r@ == self@.1,
            r@.len() == 4 * self@.0.width * self@.0.height,
    {
        proof {
            use_type_invariant(self);
        }
        &self.pixels
    }
}

/// `index` is where `wanted` first holds in `formats`.
pub open spec fn is_first(
    formats: Seq<TextureFormat>,
    index: int,
    wanted: spec_fn(TextureFormat) -> bool,
) -> bool {
    &&& 0 <= index < formats.len()
    &&& wanted(formats[index])
    &&& forall|j: int| 0 <= j < index ==> !wanted(#[trigger] formats[j])
}

/// `index` is the first place where `wanted` holds, or zero where it holds nowhere.
pub open spec fn is_first_or_zero(
    formats: Seq<TextureFormat>,
    index: int,
    wanted: spec_fn(TextureFormat) -> bool,
) -> bool {
    ||| is_first(formats, index, wanted)
    ||| index == 0 && forall|j: int| 0 <= j < formats.len() ==> !wanted(#[trigger] formats[j])
}

/// The position of the first sRGB format, or zero where there is none.
pub fn first_srgb_format(formats: &Vec<TextureFormat>) -> (r: usize)
    requires
        formats@.len() > 0,
    ensures
        r < formats@.len(),
        is_first_or_zero(formats@, r as int, |f: TextureFormat| f.is_srgb()),
{
    let mut i: usize = 0;
    while i < formats.len()
        invariant
            i <= formats@.len(),
            formats@.len() > 0,
            forall|j: int| 0 <= j < i ==> !(#[trigger] formats@[j]).is_srgb(),
        decreases formats@.len() - i,
    {
        if formats[i].is_srgb() {
            return i;
        }
        i = i + 1;
    }
    0
}

/// The position of the first `Bgra8Unorm` format, or zero where there is none.
pub fn first_bgra_format(formats: &Vec<TextureFormat>) -> (r: usize)
    requires
        formats@.len() > 0,
    ensures
        r < formats@.len(),
        is_first_or_zero(formats@, r as int, |f: TextureFormat| f is Bgra8Unorm),
{
    let mut i: usize = 0;
    while i < formats.len()
        invariant
            i <= formats@.len(),
            formats@.len() > 0,
            forall|j: int| 0 <= j < i ==> !((#[trigger] formats@[j]) is Bgra8Unorm),
        decreases formats@.len() - i,
    {
        if matches!(formats[i], TextureFormat::Bgra8Unorm) {
            return i;
        }
        i = i + 1;
    }
    0
}

/// The sRGB formats are those that wgpu names so, and an ASTC format is one exactly by
/// its channels, whatever its blocks.
pub proof fn srgb_formats(format: TextureFormat)
    ensures
        format.is_srgb() <==> {
            ||| format == TextureFormat::Rgba8UnormSrgb
            ||| format == TextureFormat::Bgra8UnormSrgb
            ||| format == TextureFormat::Bc1RgbaUnormSrgb
            ||| format == TextureFormat::Bc2RgbaUnormSrgb
            ||| format == TextureFormat::Bc3RgbaUnormSrgb
            ||| format == TextureFormat::Bc7RgbaUnormSrgb
            ||| format == TextureFormat::Etc2Rgb8UnormSrgb
            ||| format == TextureFormat::Etc2Rgb8A1UnormSrgb
            ||| format == TextureFormat::Etc2Rgba8UnormSrgb
            ||| format matches TextureFormat::Astc { channel, .. } && channel
                == AstcChannel::UnormSrgb
        },
{
}

/// A plain texture has the given label, size, format and usage, and a single image of
/// single samples.
pub proof fn plain_texture_is_one_image(
    label: &'static str,
    size: PhysicalSize,
    format: TextureFormat,
    usage: TextureUsage,
)
    ensures
        ({
            let shape = TextureShape::plain(label, size, format, usage);
            &&& shape.label == label
            &&& shape.size.width == size.width
            &&& shape.size.height == size.height
            &&& shape.format == format
            &&& shape.usage == usage
            &&& shape.depth_or_array_layers == 1
            &&& shape.mip_level_count == 1
            &&& shape.sample_count == 1
        }),
{
}

/// Where a list of formats holds an sRGB format, the first of these is found, and
/// where it holds none, the first format of all is; and so for `Bgra8Unorm`.
pub proof fn wanted_format_is_found(formats: &Vec<TextureFormat>, srgb: usize, bgra: usize, i: int)
    requires
        formats@.len() > 0,
        0 <= i < formats@.len(),
        call_ensures(first_srgb_format, (formats,), srgb),
        call_ensures(first_bgra_format, (formats,), bgra),
    ensures
        srgb < formats@.len(),
        bgra < formats@.len(),
        formats@[i].is_srgb() ==> formats@[srgb as int].is_srgb() && srgb <= i,
        formats@[i] == TextureFormat::Bgra8Unorm ==> formats@[bgra as int]
            == TextureFormat::Bgra8Unorm && bgra <= i,
        !formats@[srgb as int].is_srgb() ==> srgb == 0,
        formats@[bgra as int] != TextureFormat::Bgra8Unorm ==> bgra == 0,
{
}

/// An image is made of any bytes that are four for each pixel, and holds just these.
pub proof fn image_holds_its_bytes(size: PhysicalSize, pixels: Vec<u8>, image: Option<RgbaImage>)
    requires
        call_ensures(RgbaImage::from_raw, (size, pixels), image),
    ensures
        image is Some <==> pixels@.len() == (size.width * 4) * size.height,
        image matches Some(made) ==> made@.0 == size && made@.1 == pixels@,
{
    assert(4 * size.width * size.height == (size.width * 4) * size.height);
}

} // verus!
