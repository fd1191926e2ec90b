//! Texture and image types shared with the encoder and transcoder wrappers.
//!
//! They mirror the WebGPU texture types that the Basis Universal transcoder
//! can produce.
use vstd::prelude::*;

verus! {

/// ASTC block dimensions.
#[derive(Copy, Clone, Debug, Hash, PartialEq, Eq, Structural)]
pub enum AstcBlock {
    /// 4x4 block compressed texture. 16 bytes per block (8 bit/px).
    B4x4,
    /// 5x4 block compressed texture. 16 bytes per block (6.4 bit/px).
    B5x4,
    /// 5x5 block compressed texture. 16 bytes per block (5.12 bit/px).
    B5x5,
    /// 6x5 block compressed texture. 16 bytes per block (4.27 bit/px).
    B6x5,
    /// 6x6 block compressed texture. 16 bytes per block (3.56 bit/px).
    B6x6,
    /// 8x5 block compressed texture. 16 bytes per block (3.2 bit/px).
    B8x5,
    /// 8x6 block compressed texture. 16 bytes per block (2.67 bit/px).
    B8x6,
    /// 8x8 block compressed texture. 16 bytes per block (2 bit/px).
    B8x8,
    /// 10x5 block compressed texture. 16 bytes per block (2.56 bit/px).
    B10x5,
    /// 10x6 block compressed texture. 16 bytes per block (2.13 bit/px).
    B10x6,
    /// 10x8 block compressed texture. 16 bytes per block (1.6 bit/px).
    B10x8,
    /// 10x10 block compressed texture. 16 bytes per block (1.28 bit/px).
    B10x10,
    /// 12x10 block compressed texture. 16 bytes per block (1.07 bit/px).
    B12x10,
    /// 12x12 block compressed texture. 16 bytes per block (0.89 bit/px).
    B12x12,
}

/// ASTC RGBA channel.
#[derive(Copy, Clone, Debug, Hash, PartialEq, Eq, Structural)]
pub enum AstcChannel {
    /// 8 bit integer RGBA, [0, 255] converted to/from linear-color float [0, 1] in shader.
    Unorm,
    /// 8 bit integer RGBA, sRGB-color [0, 255] converted to/from linear-color float [0, 1] in shader.
    UnormSrgb,
    /// Floating-point RGBA, linear-color float can be outside of the [0, 1] range.
    Hdr,
}

/// Dimensions of a particular texture view (WebGPU `GPUTextureViewDimension`).
#[derive(Copy, Clone, Debug, Hash, PartialEq, Eq, Structural)]
pub enum TextureViewDimension {
    /// A two dimensional texture.
    D2,
    /// A two dimensional array texture.
    D2Array,
    /// A cubemap texture.
    Cube,
    /// A cubemap array texture.
    CubeArray,
}

impl Default for TextureViewDimension {
    fn default() -> (r: Self)
        ensures
            r == TextureViewDimension::D2,
    {
        TextureViewDimension::D2
    }
}

/// Extent of a texture related operation (WebGPU `GPUExtent3D`).
#[derive(Clone, Copy, Debug, PartialEq, Eq, Hash, Structural)]
pub struct Extent3d {
    /// Width of the extent.
    pub width: u32,
    /// Height of the extent.
    pub height: u32,
    /// The depth of the extent or the number of array layers.
    pub depth_or_array_layers: u32,
}

/// The depth that a deserialized [`Extent3d`] gets when none is given.
pub fn default_depth() -> (r: u32)
    ensures
        r == 1,
{
    1
}

/// Format in which a texture's texels are stored in GPU memory
/// (WebGPU `GPUTextureFormat`), restricted to the formats that the
/// transcoder can produce.
#[derive(Copy, Clone, Debug, Hash, PartialEq, Eq, Structural)]
pub enum TextureFormat {
    /// Red channel only, 8 bit unorm.
    R8Unorm,
    /// Red channel only, 16 bit float.
    R16Float,
    /// Red and green channels, 8 bit unorm.
    Rg8Unorm,
    /// Red and green channels, 16 bit float.
    Rg16Float,
    /// RGBA, 8 bit unorm.
    Rgba8Unorm,
    /// RGBA, 8 bit unorm, sRGB encoded.
    Rgba8UnormSrgb,
    /// Packed unsigned float with 9 bit mantissas and a shared 5 bit exponent.
    Rgb9e5Ufloat,
    /// RGBA, 16 bit float.
    Rgba16Float,
    /// BC1 (DXT1), 4x4 blocks of 8 bytes.
    Bc1RgbaUnorm,
    /// BC1 (DXT1), sRGB encoded.
    Bc1RgbaUnormSrgb,
    /// BC2 (DXT3), 4x4 blocks of 16 bytes.
    Bc2RgbaUnorm,
    /// BC2 (DXT3), sRGB encoded.
    Bc2RgbaUnormSrgb,
    /// BC3 (DXT5), 4x4 blocks of 16 bytes.
    Bc3RgbaUnorm,
    /// BC3 (DXT5), sRGB encoded.
    Bc3RgbaUnormSrgb,
    /// BC4 (RGTC1) red channel, unorm.
    Bc4RUnorm,
    /// BC4 (RGTC1) red channel, snorm.
    Bc4RSnorm,
    /// BC5 (RGTC2) red and green channels, unorm.
    Bc5RgUnorm,
    /// BC5 (RGTC2) red and green channels, snorm.
    Bc5RgSnorm,
    /// BC6H unsigned float RGB.
    Bc6hRgbUfloat,
    /// BC6H signed float RGB.
    Bc6hRgbFloat,
    /// BC7 RGBA unorm.
    Bc7RgbaUnorm,
    /// BC7 RGBA unorm, sRGB encoded.
    Bc7RgbaUnormSrgb,
    /// ETC2 RGB.
    Etc2Rgb8Unorm,
    /// ETC2 RGB, sRGB encoded.
    Etc2Rgb8UnormSrgb,
    /// ETC2 RGB with 1 bit alpha.
    Etc2Rgb8A1Unorm,
    /// ETC2 RGB with 1 bit alpha, sRGB encoded.
    Etc2Rgb8A1UnormSrgb,
    /// ETC2 RGBA.
    Etc2Rgba8Unorm,
    /// ETC2 RGBA, sRGB encoded.
    Etc2Rgba8UnormSrgb,
    /// EAC R11 unorm.
    EacR11Unorm,
    /// EAC R11 snorm.
    EacR11Snorm,
    /// EAC RG11 unorm.
    EacRg11Unorm,
    /// EAC RG11 snorm.
    EacRg11Snorm,
    /// ASTC block compressed texture, 16 bytes per block.
    Astc {
        /// Compressed block dimensions.
        block: AstcBlock,
        /// ASTC RGBA channel.
        channel: AstcChannel,
    },
}

/// The linear format of which `f` is the sRGB-encoded variant, if `f` is one.
pub open spec fn linear_of_srgb(f: TextureFormat) -> Option<TextureFormat> {
    match f {
        TextureFormat::Rgba8UnormSrgb => Some(TextureFormat::Rgba8Unorm),
        TextureFormat::Bc1RgbaUnormSrgb => Some(TextureFormat::Bc1RgbaUnorm),
        TextureFormat::Bc2RgbaUnormSrgb => Some(TextureFormat::Bc2RgbaUnorm),
        TextureFormat::Bc3RgbaUnormSrgb => Some(TextureFormat::Bc3RgbaUnorm),
        TextureFormat::Bc7RgbaUnormSrgb => Some(TextureFormat::Bc7RgbaUnorm),
        TextureFormat::Etc2Rgb8UnormSrgb => Some(TextureFormat::Etc2Rgb8Unorm),
        TextureFormat::Etc2Rgb8A1UnormSrgb => Some(TextureFormat::Etc2Rgb8A1Unorm),
        TextureFormat::Etc2Rgba8UnormSrgb => Some(TextureFormat::Etc2Rgba8Unorm),
        TextureFormat::Astc { block, channel: AstcChannel::UnormSrgb } => Some(
            TextureFormat::Astc { block, channel: AstcChannel::Unorm },
        ),
        _ => None,
    }
}

/// The sRGB-encoded variant of the linear format `f`, if it has one.
pub open spec fn srgb_of_linear(f: TextureFormat) -> Option<TextureFormat> {
    match f {
        TextureFormat::Rgba8Unorm => Some(TextureFormat::Rgba8UnormSrgb),
        TextureFormat::Bc1RgbaUnorm => Some(TextureFormat::Bc1RgbaUnormSrgb),
        TextureFormat::Bc2RgbaUnorm => Some(TextureFormat::Bc2RgbaUnormSrgb),
        TextureFormat::Bc3RgbaUnorm => Some(TextureFormat::Bc3RgbaUnormSrgb),
        TextureFormat::Bc7RgbaUnorm => Some(TextureFormat::Bc7RgbaUnormSrgb),
        TextureFormat::Etc2Rgb8Unorm => Some(TextureFormat::Etc2Rgb8UnormSrgb),
        TextureFormat::Etc2Rgb8A1Unorm => Some(TextureFormat::Etc2Rgb8A1UnormSrgb),
        TextureFormat::Etc2Rgba8Unorm => Some(TextureFormat::Etc2Rgba8UnormSrgb),
        TextureFormat::Astc { block, channel: AstcChannel::Unorm } => Some(
            TextureFormat::Astc { block, channel: AstcChannel::UnormSrgb },
        ),
        _ => None,
    }
}

/// Whether `f` is an sRGB-encoded format.
pub open spec fn is_srgb_format(f: TextureFormat) -> bool {
    linear_of_srgb(f) is Some
}

impl TextureFormat {
    /// `self` without its sRGB suffix: the linear variant of an sRGB
    /// format, any other format unchanged.
    pub open spec fn without_srgb(self) -> TextureFormat {
        match linear_of_srgb(self) {
            Some(linear) => linear,
            None => self,
        }
    }

    /// `self` with an sRGB suffix: the sRGB variant of a linear format that
    /// has one, any other format unchanged.
    pub open spec fn with_srgb(self) -> TextureFormat {
        match srgb_of_linear(self) {
            Some(srgb) => srgb,
            None => self,
        }
    }

    /// Strips the `Srgb` suffix from the given texture format.
    #[must_use]
    pub fn remove_srgb_suffix(&self) -> (r: TextureFormat)
        ensures
            r == self.without_srgb(),
    {
        match *self {
            TextureFormat::Rgba8UnormSrgb => TextureFormat::Rgba8Unorm,
            TextureFormat::Bc1RgbaUnormSrgb => TextureFormat::Bc1RgbaUnorm,
            TextureFormat::Bc2RgbaUnormSrgb => TextureFormat::Bc2RgbaUnorm,
            TextureFormat::Bc3RgbaUnormSrgb => TextureFormat::Bc3RgbaUnorm,
            TextureFormat::Bc7RgbaUnormSrgb => TextureFormat::Bc7RgbaUnorm,
            TextureFormat::Etc2Rgb8UnormSrgb => TextureFormat::Etc2Rgb8Unorm,
            TextureFormat::Etc2Rgb8A1UnormSrgb => TextureFormat::Etc2Rgb8A1Unorm,
            TextureFormat::Etc2Rgba8UnormSrgb => TextureFormat::Etc2Rgba8Unorm,
            TextureFormat::Astc { block, channel: AstcChannel::UnormSrgb } => TextureFormat::Astc {
                block,
                channel: AstcChannel::Unorm,
            },
            _ => *self,
        }
    }

    /// Adds an `Srgb` suffix to the given texture format, if the format supports it.
    #[must_use]
    pub fn add_srgb_suffix(&self) -> (r: TextureFormat)
        ensures
            r == self.with_srgb(),
    {
        match *self {
            TextureFormat::Rgba8Unorm => TextureFormat::Rgba8UnormSrgb,
            TextureFormat::Bc1RgbaUnorm => TextureFormat::Bc1RgbaUnormSrgb,
            TextureFormat::Bc2RgbaUnorm => TextureFormat::Bc2RgbaUnormSrgb,
            TextureFormat::Bc3RgbaUnorm => TextureFormat::Bc3RgbaUnormSrgb,
            TextureFormat::Bc7RgbaUnorm => TextureFormat::Bc7RgbaUnormSrgb,
            TextureFormat::Etc2Rgb8Unorm => TextureFormat::Etc2Rgb8UnormSrgb,
            TextureFormat::Etc2Rgb8A1Unorm => TextureFormat::Etc2Rgb8A1UnormSrgb,
            TextureFormat::Etc2Rgba8Unorm => TextureFormat::Etc2Rgba8UnormSrgb,
            TextureFormat::Astc { block, channel: AstcChannel::Unorm } => TextureFormat::Astc {
                block,
                channel: AstcChannel::UnormSrgb,
            },
            _ => *self,
        }
    }
}

/// Removing the sRGB suffix gives a format without one, and doing it twice
/// changes nothing more.
pub proof fn lemma_remove_srgb_suffix_idempotent(f: TextureFormat)
    ensures
        !is_srgb_format(f.without_srgb()),
        f.without_srgb().without_srgb() == f.without_srgb(),
{
}

/// Adding the sRGB suffix twice is the same as adding it once.
pub proof fn lemma_add_srgb_suffix_idempotent(f: TextureFormat)
    ensures
        f.with_srgb().with_srgb() == f.with_srgb(),
{
}

/// Removing the suffix after adding it gives what removing it alone gives,
/// and adding it after removing it gives what adding it alone gives: the two
/// only ever move between a linear format and its sRGB variant.
pub proof fn lemma_srgb_suffix_round_trips(f: TextureFormat)
    ensures
        f.with_srgb().without_srgb() == f.without_srgb(),
        f.without_srgb().with_srgb() == f.with_srgb(),
{
}

/// An sRGB format is the sRGB variant of its linear format, and a linear
/// format that has an sRGB variant is that variant's linear format.
pub proof fn lemma_srgb_pairs_invert(f: TextureFormat)
    ensures
        is_srgb_format(f) ==> srgb_of_linear(f.without_srgb()) == Some(f),
        srgb_of_linear(f) is Some ==> linear_of_srgb(f.with_srgb()) == Some(f),
{
}

/// The width and height in texels of an ASTC block.
pub open spec fn astc_block_dims(b: AstcBlock) -> (nat, nat) {
    match b {
        AstcBlock::B4x4 => (4, 4),
        AstcBlock::B5x4 => (5, 4),
        AstcBlock::B5x5 => (5, 5),
        AstcBlock::B6x5 => (6, 5),
        AstcBlock::B6x6 => (6, 6),
        AstcBlock::B8x5 => (8, 5),
        AstcBlock::B8x6 => (8, 6),
        AstcBlock::B8x8 => (8, 8),
        AstcBlock::B10x5 => (10, 5),
        AstcBlock::B10x6 => (10, 6),
        AstcBlock::B10x8 => (10, 8),
        AstcBlock::B10x10 => (10, 10),
        AstcBlock::B12x10 => (12, 10),
        AstcBlock::B12x12 => (12, 12),
    }
}

/// The width and height in texels of a block of the format: 1 by 1 for the
/// uncompressed formats, 4 by 4 for BC, ETC2 and EAC, and the ASTC block's
/// own size.
pub open spec fn format_block_dims(f: TextureFormat) -> (nat, nat) {
    match f {
        TextureFormat::R8Unorm | TextureFormat::R16Float | TextureFormat::Rg8Unorm
        | TextureFormat::Rg16Float | TextureFormat::Rgba8Unorm | TextureFormat::Rgba8UnormSrgb
        | TextureFormat::Rgb9e5Ufloat | TextureFormat::Rgba16Float => (1, 1),
        TextureFormat::Astc { block, channel: _ } => astc_block_dims(block),
        _ => (4, 4),
    }
}

/// The bytes of one block of the format (of one texel for the uncompressed
/// formats).
pub open spec fn format_block_bytes(f: TextureFormat) -> nat {
    match f {
        TextureFormat::R8Unorm => 1,
        TextureFormat::R16Float | TextureFormat::Rg8Unorm => 2,
        TextureFormat::Rg16Float | TextureFormat::Rgba8Unorm | TextureFormat::Rgba8UnormSrgb
        | TextureFormat::Rgb9e5Ufloat => 4,
        TextureFormat::Rgba16Float => 8,
        TextureFormat::Bc1RgbaUnorm | TextureFormat::Bc1RgbaUnormSrgb | TextureFormat::Bc4RUnorm
        | TextureFormat::Bc4RSnorm | TextureFormat::Etc2Rgb8Unorm | TextureFormat::Etc2Rgb8UnormSrgb
        | TextureFormat::Etc2Rgb8A1Unorm | TextureFormat::Etc2Rgb8A1UnormSrgb
        | TextureFormat::EacR11Unorm | TextureFormat::EacR11Snorm => 8,
        _ => 16,
    }
}

/// The pairs of a linear format and its sRGB-encoded variant, as WebGPU
/// defines them: RGBA8, BC1, BC2, BC3, BC7, ETC2 RGB8, ETC2 RGB8A1, ETC2
/// RGBA8, and ASTC unorm of every block size.
pub open spec fn is_srgb_pair(linear: TextureFormat, srgb: TextureFormat) -> bool {
    ||| linear == TextureFormat::Rgba8Unorm && srgb == TextureFormat::Rgba8UnormSrgb
    ||| linear == TextureFormat::Bc1RgbaUnorm && srgb == TextureFormat::Bc1RgbaUnormSrgb
    ||| linear == TextureFormat::Bc2RgbaUnorm && srgb == TextureFormat::Bc2RgbaUnormSrgb
    ||| linear == TextureFormat::Bc3RgbaUnorm && srgb == TextureFormat::Bc3RgbaUnormSrgb
    ||| linear == TextureFormat::Bc7RgbaUnorm && srgb == TextureFormat::Bc7RgbaUnormSrgb
    ||| linear == TextureFormat::Etc2Rgb8Unorm && srgb == TextureFormat::Etc2Rgb8UnormSrgb
    ||| linear == TextureFormat::Etc2Rgb8A1Unorm && srgb == TextureFormat::Etc2Rgb8A1UnormSrgb
    ||| linear == TextureFormat::Etc2Rgba8Unorm && srgb == TextureFormat::Etc2Rgba8UnormSrgb
    ||| exists|b: AstcBlock|
        linear == (TextureFormat::Astc { block: b, channel: AstcChannel::Unorm }) && srgb == (
        TextureFormat::Astc { block: b, channel: AstcChannel::UnormSrgb })
}

/// Adding the sRGB suffix turns the linear format of every pair into its
/// sRGB variant and leaves a format that is no pair's linear format as it
/// is; removing it turns the sRGB variant of every pair into its linear
/// format and leaves a format that is no pair's sRGB variant as it is.
pub proof fn lemma_srgb_suffix_follows_pairs(f: TextureFormat, g: TextureFormat)
    ensures
        is_srgb_pair(f, g) ==> f.with_srgb() == g && g.without_srgb() == f,
        (forall|h: TextureFormat| !is_srgb_pair(f, h)) ==> f.with_srgb() == f,
        (forall|h: TextureFormat| !is_srgb_pair(h, f)) ==> f.without_srgb() == f,
{
    if let TextureFormat::Astc { block, channel } = f {
        assert(is_srgb_pair(
            TextureFormat::Astc { block, channel: AstcChannel::Unorm },
            TextureFormat::Astc { block, channel: AstcChannel::UnormSrgb },
        ));
    }
    if is_srgb_pair(f, g) {
        if let TextureFormat::Astc { block, channel } = f {
            let b = choose|b: AstcBlock|
                f == (TextureFormat::Astc { block: b, channel: AstcChannel::Unorm }) && g == (
                TextureFormat::Astc { block: b, channel: AstcChannel::UnormSrgb });
            assert(b == block);
        }
    }
    assert(is_srgb_pair(TextureFormat::Rgba8Unorm, TextureFormat::Rgba8UnormSrgb));
    assert(is_srgb_pair(TextureFormat::Bc1RgbaUnorm, TextureFormat::Bc1RgbaUnormSrgb));
    assert(is_srgb_pair(TextureFormat::Bc2RgbaUnorm, TextureFormat::Bc2RgbaUnormSrgb));
    assert(is_srgb_pair(TextureFormat::Bc3RgbaUnorm, TextureFormat::Bc3RgbaUnormSrgb));
    assert(is_srgb_pair(TextureFormat::Bc7RgbaUnorm, TextureFormat::Bc7RgbaUnormSrgb));
    assert(is_srgb_pair(TextureFormat::Etc2Rgb8Unorm, TextureFormat::Etc2Rgb8UnormSrgb));
    assert(is_srgb_pair(TextureFormat::Etc2Rgb8A1Unorm, TextureFormat::Etc2Rgb8A1UnormSrgb));
    assert(is_srgb_pair(TextureFormat::Etc2Rgba8Unorm, TextureFormat::Etc2Rgba8UnormSrgb));
}

} // verus!
