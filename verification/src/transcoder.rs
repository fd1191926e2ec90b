//! Transcode target selection and the bookkeeping around transcoding a KTX2
//! Basis Universal texture: which target to pick for a device, which WebGPU
//! format a target is, and how the transcoded slices are laid out.
use vstd::prelude::*;

use crate::formats::{
    basis_format_of_code, BasisTextureFormat, TranscodeTargetFormat, BTF_TOTAL_FORMATS,
};
use crate::types::{
    astc_block_dims, format_block_bytes, format_block_dims, is_srgb_format, AstcBlock,
    AstcChannel, Extent3d, TextureFormat, TextureViewDimension,
};

verus! {

/// The channel layout of a texture, which steers target selection between
/// the one-, two-, three- and four-channel variants of ETC2 and BC.
#[derive(Clone, Copy, Debug, PartialEq, Eq, Structural)]
pub enum ChannelType {
    /// Determined from the KTX2 data format descriptor.
    Auto,
    /// Red, green, blue and alpha.
    Rgba,
    /// Red, green and blue.
    Rgb,
    /// Red and green.
    Rg,
    /// Red only.
    R,
}

impl Default for ChannelType {
    fn default() -> (r: Self)
        ensures
            r == ChannelType::Auto,
    {
        ChannelType::Auto
    }
}

/// The families of compressed texture formats that a device supports, as a
/// set of bit flags.
#[derive(Clone, Copy, Debug, PartialEq, Eq, Hash, Structural)]
pub struct SupportedTextureCompression {
    /// The raw flag bits: bit 0 ETC2, bit 1 BC, bit 2 ASTC LDR, bit 3 ASTC HDR.
    pub bits: u8,
}

/// The flag bit of ETC2 support.
pub const ETC2_BIT: u8 = 1;

/// The flag bit of BC support.
pub const BC_BIT: u8 = 2;

/// The flag bit of ASTC LDR support.
pub const ASTC_LDR_BIT: u8 = 4;

/// The flag bit of ASTC HDR support.
pub const ASTC_HDR_BIT: u8 = 8;

/// The bits that name a known compression family.
pub const ALL_BITS: u8 = 15;

impl SupportedTextureCompression {
    /// Whether every flag of `other` is set in `self`.
    pub open spec fn has(self, other: SupportedTextureCompression) -> bool {
        self.bits & other.bits == other.bits
    }

    /// Whether ETC2 is supported.
    pub open spec fn etc2_supported(self) -> bool {
        self.bits & ETC2_BIT == ETC2_BIT
    }

    /// Whether BC is supported.
    pub open spec fn bc_supported(self) -> bool {
        self.bits & BC_BIT == BC_BIT
    }

    /// Whether ASTC LDR is supported.
    pub open spec fn astc_ldr_supported(self) -> bool {
        self.bits & ASTC_LDR_BIT == ASTC_LDR_BIT
    }

    /// Whether ASTC HDR is supported.
    pub open spec fn astc_hdr_supported(self) -> bool {
        self.bits & ASTC_HDR_BIT == ASTC_HDR_BIT
    }

    /// No compression family.
    pub fn empty() -> (r: Self)
        ensures
            r.bits == 0,
    {
        SupportedTextureCompression { bits: 0 }
    }

    /// Every known compression family.
    pub fn all() -> (r: Self)
        ensures
            r.bits == ALL_BITS,
    {
        SupportedTextureCompression { bits: ALL_BITS }
    }

    /// ETC2 alone.
    pub fn etc2() -> (r: Self)
        ensures
            r.bits == ETC2_BIT,
    {
        SupportedTextureCompression { bits: ETC2_BIT }
    }

    /// BC alone.
    pub fn bc() -> (r: Self)
        ensures
            r.bits == BC_BIT,
    {
        SupportedTextureCompression { bits: BC_BIT }
    }

    /// ASTC LDR alone.
    pub fn astc_ldr() -> (r: Self)
        ensures
            r.bits == ASTC_LDR_BIT,
    {
        SupportedTextureCompression { bits: ASTC_LDR_BIT }
    }

    /// ASTC HDR alone.
    pub fn astc_hdr() -> (r: Self)
        ensures
            r.bits == ASTC_HDR_BIT,
    {
        SupportedTextureCompression { bits: ASTC_HDR_BIT }
    }

    /// The flags given by `bits`, with the bits that name no family dropped.
    pub fn from_bits_truncate(bits: u8) -> (r: Self)
        ensures
            r.bits == bits & ALL_BITS,
    {
        SupportedTextureCompression { bits: bits & ALL_BITS }
    }

    /// The raw flag bits.
    pub fn bits(&self) -> (r: u8)
        ensures
            r == self.bits,
    {
        self.bits
    }

    /// Whether every flag of `other` is set in `self`.
    pub fn contains(&self, other: SupportedTextureCompression) -> (r: bool)
        ensures
            r == self.has(other),
    {
        self.bits & other.bits == other.bits
    }

    /// The flags set in either `self` or `other`.
    pub fn union(self, other: SupportedTextureCompression) -> (r: Self)
        ensures
            r.bits == self.bits | other.bits,
    {
        SupportedTextureCompression { bits: self.bits | other.bits }
    }

    /// Sets the flags of `other` in `self`.
    pub fn insert(&mut self, other: SupportedTextureCompression)
        ensures
            final(self).bits == old(self).bits | other.bits,
    {
        self.bits = self.bits | other.bits;
    }
}

/// After inserting a flag it is set, and no flag that was set is lost.
pub proof fn lemma_union_has_both(a: SupportedTextureCompression, b: SupportedTextureCompression)
    ensures
        (SupportedTextureCompression { bits: a.bits | b.bits }).has(a),
        (SupportedTextureCompression { bits: a.bits | b.bits }).has(b),
{
    let x = a.bits;
    let y = b.bits;
    assert((x | y) & x == x) by (bit_vector);
    assert((x | y) & y == y) by (bit_vector);
}

/// Errors while transcoding a KTX2 Basis Universal texture.
#[derive(Debug, Clone, Copy, PartialEq, Eq, Structural)]
#[non_exhaustive]
pub enum BasisuTranscodeError {
    /// Input data is empty.
    EmptyInputData,
    /// Failed to load ktx2 data, likely the input data isn't valid.
    LoadKtx2DataFailed,
    /// Invalid ktx2 face count. It must be 1 or 6.
    InvalidFaceCount(u32),
    /// The transcode target is not supported for this texture.
    UnsupportedTranscodeTarget,
    /// `bt_ktx2_start_transcoding` failed.
    BtStartTranscodingFailed,
    /// `bt_ktx2_transcode_image_level` failed.
    BtTranscodeImageLevelFailed,
}

/// What the transcoder knows of a loaded texture.
#[derive(Debug, Clone, Copy, PartialEq, Eq, Structural)]
pub struct TranscodeInfo {
    /// Width of the base level.
    pub width: u32,
    /// Height of the base level.
    pub height: u32,
    /// Mip level count.
    pub levels: u32,
    /// Array layer count; 0 for a texture that is not an array.
    pub layers: u32,
    /// Face count: 1, or 6 for a cubemap.
    pub faces: u32,
    /// Whether the data format descriptor has the sRGB transfer function.
    pub is_srgb: bool,
    /// The basis texture format of the data.
    pub basis_format: BasisTextureFormat,
    /// The target chosen for the device.
    pub preferred_target: TranscodeTargetFormat,
}

/// KTX2 data format descriptor channel ids of ETC1S textures.
pub const KTX2_DF_CHANNEL_ETC1S_RGB: u32 = 0;
/// The ETC1S red channel id.
pub const KTX2_DF_CHANNEL_ETC1S_RRR: u32 = 3;
/// The ETC1S green channel id.
pub const KTX2_DF_CHANNEL_ETC1S_GGG: u32 = 4;
/// The ETC1S alpha channel id.
pub const KTX2_DF_CHANNEL_ETC1S_AAA: u32 = 15;

/// KTX2 data format descriptor channel ids of UASTC textures.
pub const KTX2_DF_CHANNEL_UASTC_RGB: u32 = 0;
/// The UASTC RGBA channel id.
pub const KTX2_DF_CHANNEL_UASTC_RGBA: u32 = 3;
/// The UASTC red channel id.
pub const KTX2_DF_CHANNEL_UASTC_RRR: u32 = 4;
/// The UASTC red-and-alpha channel id.
pub const KTX2_DF_CHANNEL_UASTC_RRRG: u32 = 5;
/// The UASTC red-and-green channel id.
pub const KTX2_DF_CHANNEL_UASTC_RG: u32 = 6;

/// The channel type that the data format descriptor's first two channel ids
/// describe: for UASTC the first id alone decides; for ETC1S an RGB slice
/// is RGBA when the second slice is alpha, and a red slice is RG when the
/// second slice is green. Anything unknown is RGBA.
pub open spec fn channel_type_of_ids(is_uastc: bool, id0: u32, id1: u32) -> ChannelType {
    if is_uastc {
        if id0 == KTX2_DF_CHANNEL_UASTC_RGB {
            ChannelType::Rgb
        } else if id0 == KTX2_DF_CHANNEL_UASTC_RRR {
            ChannelType::R
        } else if id0 == KTX2_DF_CHANNEL_UASTC_RRRG || id0 == KTX2_DF_CHANNEL_UASTC_RG {
            ChannelType::Rg
        } else {
            ChannelType::Rgba
        }
    } else if id0 == KTX2_DF_CHANNEL_ETC1S_RGB {
        if id1 == KTX2_DF_CHANNEL_ETC1S_AAA {
            ChannelType::Rgba
        } else {
            ChannelType::Rgb
        }
    } else if id0 == KTX2_DF_CHANNEL_ETC1S_RRR {
        if id1 == KTX2_DF_CHANNEL_ETC1S_GGG {
            ChannelType::Rg
        } else {
            ChannelType::R
        }
    } else {
        ChannelType::Rgba
    }
}

/// The channel type described by the KTX2 data format descriptor channel ids.
pub fn channel_id_to_type(is_uastc: bool, channel_id0: u32, channel_id1: u32) -> (r: ChannelType)
    ensures
        r == channel_type_of_ids(is_uastc, channel_id0, channel_id1),
        r != ChannelType::Auto,
{
    if is_uastc {
        match channel_id0 {
            KTX2_DF_CHANNEL_UASTC_RGB => ChannelType::Rgb,
            KTX2_DF_CHANNEL_UASTC_RGBA => ChannelType::Rgba,
            KTX2_DF_CHANNEL_UASTC_RRR => ChannelType::R,
            KTX2_DF_CHANNEL_UASTC_RRRG => ChannelType::Rg,
            KTX2_DF_CHANNEL_UASTC_RG => ChannelType::Rg,
            _ => ChannelType::Rgba,
        }
    } else {
        if channel_id0 == KTX2_DF_CHANNEL_ETC1S_RGB && channel_id1 != KTX2_DF_CHANNEL_ETC1S_AAA {
            ChannelType::Rgb
        } else if channel_id0 == KTX2_DF_CHANNEL_ETC1S_RGB && channel_id1
            == KTX2_DF_CHANNEL_ETC1S_AAA {
            ChannelType::Rgba
        } else if channel_id0 == KTX2_DF_CHANNEL_ETC1S_RRR && channel_id1
            != KTX2_DF_CHANNEL_ETC1S_GGG {
            ChannelType::R
        } else if channel_id0 == KTX2_DF_CHANNEL_ETC1S_RRR && channel_id1
            == KTX2_DF_CHANNEL_ETC1S_GGG {
            ChannelType::Rg
        } else {
            ChannelType::Rgba
        }
    }
}

/// The ASTC LDR transcode target whose block size is that of `f`, for the
/// ASTC-block LDR formats (UASTC LDR 4x4, XUASTC LDR and ASTC LDR), which
/// the transcoder passes through to ASTC without re-encoding the blocks.
pub open spec fn astc_ldr_target_of(f: BasisTextureFormat) -> Option<TranscodeTargetFormat> {
    match f {
        BasisTextureFormat::UastcLdr4x4 => Some(TranscodeTargetFormat::AstcLdr4x4Rgba),
        BasisTextureFormat::XuastcLdr4x4 => Some(TranscodeTargetFormat::AstcLdr4x4Rgba),
        BasisTextureFormat::XuastcLdr5x4 => Some(TranscodeTargetFormat::AstcLdr5x4Rgba),
        BasisTextureFormat::XuastcLdr5x5 => Some(TranscodeTargetFormat::AstcLdr5x5Rgba),
        BasisTextureFormat::XuastcLdr6x5 => Some(TranscodeTargetFormat::AstcLdr6x5Rgba),
        BasisTextureFormat::XuastcLdr6x6 => Some(TranscodeTargetFormat::AstcLdr6x6Rgba),
        BasisTextureFormat::XuastcLdr8x5 => Some(TranscodeTargetFormat::AstcLdr8x5Rgba),
        BasisTextureFormat::XuastcLdr8x6 => Some(TranscodeTargetFormat::AstcLdr8x6Rgba),
        BasisTextureFormat::XuastcLdr10x5 => Some(TranscodeTargetFormat::AstcLdr10x5Rgba),
        BasisTextureFormat::XuastcLdr10x6 => Some(TranscodeTargetFormat::AstcLdr10x6Rgba),
        BasisTextureFormat::XuastcLdr8x8 => Some(TranscodeTargetFormat::AstcLdr8x8Rgba),
        BasisTextureFormat::XuastcLdr10x8 => Some(TranscodeTargetFormat::AstcLdr10x8Rgba),
        BasisTextureFormat::XuastcLdr10x10 => Some(TranscodeTargetFormat::AstcLdr10x10Rgba),
        BasisTextureFormat::XuastcLdr12x10 => Some(TranscodeTargetFormat::AstcLdr12x10Rgba),
        BasisTextureFormat::XuastcLdr12x12 => Some(TranscodeTargetFormat::AstcLdr12x12Rgba),
        BasisTextureFormat::AstcLdr4x4 => Some(TranscodeTargetFormat::AstcLdr4x4Rgba),
        BasisTextureFormat::AstcLdr5x4 => Some(TranscodeTargetFormat::AstcLdr5x4Rgba),
        BasisTextureFormat::AstcLdr5x5 => Some(TranscodeTargetFormat::AstcLdr5x5Rgba),
        BasisTextureFormat::AstcLdr6x5 => Some(TranscodeTargetFormat::AstcLdr6x5Rgba),
        BasisTextureFormat::AstcLdr6x6 => Some(TranscodeTargetFormat::AstcLdr6x6Rgba),
        BasisTextureFormat::AstcLdr8x5 => Some(TranscodeTargetFormat::AstcLdr8x5Rgba),
        BasisTextureFormat::AstcLdr8x6 => Some(TranscodeTargetFormat::AstcLdr8x6Rgba),
        BasisTextureFormat::AstcLdr10x5 => Some(TranscodeTargetFormat::AstcLdr10x5Rgba),
        BasisTextureFormat::AstcLdr10x6 => Some(TranscodeTargetFormat::AstcLdr10x6Rgba),
        BasisTextureFormat::AstcLdr8x8 => Some(TranscodeTargetFormat::AstcLdr8x8Rgba),
        BasisTextureFormat::AstcLdr10x8 => Some(TranscodeTargetFormat::AstcLdr10x8Rgba),
        BasisTextureFormat::AstcLdr10x10 => Some(TranscodeTargetFormat::AstcLdr10x10Rgba),
        BasisTextureFormat::AstcLdr12x10 => Some(TranscodeTargetFormat::AstcLdr12x10Rgba),
        BasisTextureFormat::AstcLdr12x12 => Some(TranscodeTargetFormat::AstcLdr12x12Rgba),
        _ => None,
    }
}

/// Whether `f` is one of the ASTC-block LDR formats.
pub open spec fn is_astc_block_ldr(f: BasisTextureFormat) -> bool {
    astc_ldr_target_of(f) is Some
}

/// The ASTC LDR transcode target of an ASTC-block LDR basis format, as the
/// transcoder's `bt_basis_get_transcoder_texture_format_from_basis_tex_format`
/// gives it for these formats.
pub fn astc_ldr_target(f: BasisTextureFormat) -> (r: Option<TranscodeTargetFormat>)
    ensures
        r == astc_ldr_target_of(f),
{
    match f {
        BasisTextureFormat::UastcLdr4x4 => Some(TranscodeTargetFormat::AstcLdr4x4Rgba),
        BasisTextureFormat::XuastcLdr4x4 => Some(TranscodeTargetFormat::AstcLdr4x4Rgba),
        BasisTextureFormat::XuastcLdr5x4 => Some(TranscodeTargetFormat::AstcLdr5x4Rgba),
        BasisTextureFormat::XuastcLdr5x5 => Some(TranscodeTargetFormat::AstcLdr5x5Rgba),
        BasisTextureFormat::XuastcLdr6x5 => Some(TranscodeTargetFormat::AstcLdr6x5Rgba),
        BasisTextureFormat::XuastcLdr6x6 => Some(TranscodeTargetFormat::AstcLdr6x6Rgba),
        BasisTextureFormat::XuastcLdr8x5 => Some(TranscodeTargetFormat::AstcLdr8x5Rgba),
        BasisTextureFormat::XuastcLdr8x6 => Some(TranscodeTargetFormat::AstcLdr8x6Rgba),
        BasisTextureFormat::XuastcLdr10x5 => Some(TranscodeTargetFormat::AstcLdr10x5Rgba),
        BasisTextureFormat::XuastcLdr10x6 => Some(TranscodeTargetFormat::AstcLdr10x6Rgba),
        BasisTextureFormat::XuastcLdr8x8 => Some(TranscodeTargetFormat::AstcLdr8x8Rgba),
        BasisTextureFormat::XuastcLdr10x8 => Some(TranscodeTargetFormat::AstcLdr10x8Rgba),
        BasisTextureFormat::XuastcLdr10x10 => Some(TranscodeTargetFormat::AstcLdr10x10Rgba),
        BasisTextureFormat::XuastcLdr12x10 => Some(TranscodeTargetFormat::AstcLdr12x10Rgba),
        BasisTextureFormat::XuastcLdr12x12 => Some(TranscodeTargetFormat::AstcLdr12x12Rgba),
        BasisTextureFormat::AstcLdr4x4 => Some(TranscodeTargetFormat::AstcLdr4x4Rgba),
        BasisTextureFormat::AstcLdr5x4 => Some(TranscodeTargetFormat::AstcLdr5x4Rgba),
        BasisTextureFormat::AstcLdr5x5 => Some(TranscodeTargetFormat::AstcLdr5x5Rgba),
        BasisTextureFormat::AstcLdr6x5 => Some(TranscodeTargetFormat::AstcLdr6x5Rgba),
        BasisTextureFormat::AstcLdr6x6 => Some(TranscodeTargetFormat::AstcLdr6x6Rgba),
        BasisTextureFormat::AstcLdr8x5 => Some(TranscodeTargetFormat::AstcLdr8x5Rgba),
        BasisTextureFormat::AstcLdr8x6 => Some(TranscodeTargetFormat::AstcLdr8x6Rgba),
        BasisTextureFormat::AstcLdr10x5 => Some(TranscodeTargetFormat::AstcLdr10x5Rgba),
        BasisTextureFormat::AstcLdr10x6 => Some(TranscodeTargetFormat::AstcLdr10x6Rgba),
        BasisTextureFormat::AstcLdr8x8 => Some(TranscodeTargetFormat::AstcLdr8x8Rgba),
        BasisTextureFormat::AstcLdr10x8 => Some(TranscodeTargetFormat::AstcLdr10x8Rgba),
        BasisTextureFormat::AstcLdr10x10 => Some(TranscodeTargetFormat::AstcLdr10x10Rgba),
        BasisTextureFormat::AstcLdr12x10 => Some(TranscodeTargetFormat::AstcLdr12x10Rgba),
        BasisTextureFormat::AstcLdr12x12 => Some(TranscodeTargetFormat::AstcLdr12x12Rgba),
        _ => None,
    }
}

/// The ETC2/EAC target of a channel type.
pub open spec fn etc2_target_of(c: ChannelType) -> TranscodeTargetFormat {
    match c {
        ChannelType::Rgb => TranscodeTargetFormat::Etc1Rgb,
        ChannelType::Rgba | ChannelType::Auto => TranscodeTargetFormat::Etc2Rgba,
        ChannelType::R => TranscodeTargetFormat::Etc2EacR11,
        ChannelType::Rg => TranscodeTargetFormat::Etc2EacRg11,
    }
}

/// The BC target of a channel type for ETC1S data.
pub open spec fn bc_target_of(c: ChannelType) -> TranscodeTargetFormat {
    match c {
        ChannelType::R => TranscodeTargetFormat::Bc4R,
        ChannelType::Rg => TranscodeTargetFormat::Bc5Rg,
        _ => TranscodeTargetFormat::Bc7Rgba,
    }
}

/// The preferred transcode target, as the target selection table states it:
///
/// | BasisU format                   | Target selection                                       |
/// | ------------------------------- | ------------------------------------------------------ |
/// | ETC1S                           | BC7/BC5/BC4 > ETC2/EAC > RGBA8                         |
/// | UASTC LDR, ASTC LDR, XUASTC LDR | ASTC > BC7 > ETC2/EAC > RGBA8                          |
/// | XUBC7                           | BC7 > ASTC 4x4 > ETC2/EAC > RGBA8                      |
/// | UASTC HDR 4x4                   | ASTC HDR 4x4 > BC6H > RGBA16F                          |
/// | ASTC HDR 6x6, UASTC HDR 6x6     | ASTC HDR 6x6 > BC6H > RGBA16F                          |
///
/// where the channel type picks among the ETC2/EAC and BC variants.
pub open spec fn preferred_target_of(
    f: BasisTextureFormat,
    c: ChannelType,
    s: SupportedTextureCompression,
) -> TranscodeTargetFormat {
    match f {
        BasisTextureFormat::Etc1s => if s.bc_supported() {
            bc_target_of(c)
        } else if s.etc2_supported() {
            etc2_target_of(c)
        } else {
            TranscodeTargetFormat::RGBA32
        },
        BasisTextureFormat::UastcHdr4x4 => if s.astc_hdr_supported() {
            TranscodeTargetFormat::AstcHdr4x4Rgba
        } else if s.bc_supported() {
            TranscodeTargetFormat::Bc6H
        } else {
            TranscodeTargetFormat::RgbaHalf
        },
        BasisTextureFormat::AstcHdr6x6 | BasisTextureFormat::UastcHdr6x6 => if s.astc_hdr_supported() {
            TranscodeTargetFormat::AstcHdr6x6Rgba
        } else if s.bc_supported() {
            TranscodeTargetFormat::Bc6H
        } else {
            TranscodeTargetFormat::RgbaHalf
        },
        BasisTextureFormat::Xubc7 => if s.bc_supported() {
            TranscodeTargetFormat::Bc7Rgba
        } else if s.astc_ldr_supported() {
            TranscodeTargetFormat::AstcLdr4x4Rgba
        } else if s.etc2_supported() {
            etc2_target_of(c)
        } else {
            TranscodeTargetFormat::RGBA32
        },
        _ => if s.astc_ldr_supported() {
            astc_ldr_target_of(f).unwrap()
        } else if s.bc_supported() {
            TranscodeTargetFormat::Bc7Rgba
        } else if s.etc2_supported() {
            etc2_target_of(c)
        } else {
            TranscodeTargetFormat::RGBA32
        },
    }
}

/// The ETC2/EAC target of a channel type (see [`etc2_target_of`]).
fn select_etc2(channel_type: ChannelType) -> (r: TranscodeTargetFormat)
    ensures
        r == etc2_target_of(channel_type),
{
    match channel_type {
        ChannelType::Rgb => TranscodeTargetFormat::Etc1Rgb,
        ChannelType::Rgba | ChannelType::Auto => TranscodeTargetFormat::Etc2Rgba,
        ChannelType::R => TranscodeTargetFormat::Etc2EacR11,
        ChannelType::Rg => TranscodeTargetFormat::Etc2EacRg11,
    }
}

/// Selects the transcode target for a basis texture format, a channel type
/// and the compression families that the device supports (see
/// [`preferred_target_of`]).
pub fn select_preferred_transcode_target(
    basis_format: BasisTextureFormat,
    channel_type: ChannelType,
    supported_compressed_formats: SupportedTextureCompression,
) -> (r: TranscodeTargetFormat)
    ensures
        r == preferred_target_of(basis_format, channel_type, supported_compressed_formats),
{
    let s = supported_compressed_formats;
    let etc2 = s.contains(SupportedTextureCompression::etc2());
    let bc = s.contains(SupportedTextureCompression::bc());
    let astc_ldr = s.contains(SupportedTextureCompression::astc_ldr());
    let astc_hdr = s.contains(SupportedTextureCompression::astc_hdr());
    match basis_format {
        BasisTextureFormat::Etc1s => {
            if bc {
                match channel_type {
                    ChannelType::Rgb => TranscodeTargetFormat::Bc7Rgba,
                    ChannelType::Rgba | ChannelType::Auto => TranscodeTargetFormat::Bc7Rgba,
                    ChannelType::R => TranscodeTargetFormat::Bc4R,
                    ChannelType::Rg => TranscodeTargetFormat::Bc5Rg,
                }
            } else if etc2 {
                select_etc2(channel_type)
            } else {
                TranscodeTargetFormat::RGBA32
            }
        },
        BasisTextureFormat::UastcHdr4x4 => {
            if astc_hdr {
                TranscodeTargetFormat::AstcHdr4x4Rgba
            } else if bc {
                TranscodeTargetFormat::Bc6H
            } else {
                TranscodeTargetFormat::RgbaHalf
            }
        },
        BasisTextureFormat::AstcHdr6x6 | BasisTextureFormat::UastcHdr6x6 => {
            if astc_hdr {
                TranscodeTargetFormat::AstcHdr6x6Rgba
            } else if bc {
                TranscodeTargetFormat::Bc6H
            } else {
                TranscodeTargetFormat::RgbaHalf
            }
        },
        BasisTextureFormat::Xubc7 => {
            if bc {
                TranscodeTargetFormat::Bc7Rgba
            } else if astc_ldr {
                TranscodeTargetFormat::AstcLdr4x4Rgba
            } else if etc2 {
                select_etc2(channel_type)
            } else {
                TranscodeTargetFormat::RGBA32
            }
        },
        _ => {
            if astc_ldr {
                match astc_ldr_target(basis_format) {
                    Some(t) => t,
                    None => TranscodeTargetFormat::RGBA32,
                }
            } else if bc {
                TranscodeTargetFormat::Bc7Rgba
            } else if etc2 {
                select_etc2(channel_type)
            } else {
                TranscodeTargetFormat::RGBA32
            }
        },
    }
}

/// The WebGPU texture format of a transcode target; `None` for the targets
/// that WebGPU has no format for (PVRTC, ATC, FXT1, RGB565, BGR565,
/// RGBA4444 and half-float RGB).
pub open spec fn wgpu_format_of(t: TranscodeTargetFormat) -> Option<TextureFormat> {
    match t {
        TranscodeTargetFormat::Etc1Rgb => Some(TextureFormat::Etc2Rgb8Unorm),
        TranscodeTargetFormat::Etc2Rgba => Some(TextureFormat::Etc2Rgba8Unorm),
        TranscodeTargetFormat::Bc1Rgb => Some(TextureFormat::Bc1RgbaUnorm),
        TranscodeTargetFormat::Bc3Rgba => Some(TextureFormat::Bc3RgbaUnorm),
        TranscodeTargetFormat::Bc4R => Some(TextureFormat::Bc4RUnorm),
        TranscodeTargetFormat::Bc5Rg => Some(TextureFormat::Bc5RgUnorm),
        TranscodeTargetFormat::Bc7Rgba => Some(TextureFormat::Bc7RgbaUnorm),
        TranscodeTargetFormat::Pvrtc1_4Rgb => None,
        TranscodeTargetFormat::Pvrtc1_4Rgba => None,
        TranscodeTargetFormat::AstcLdr4x4Rgba => Some(TextureFormat::Astc { block: AstcBlock::B4x4, channel: AstcChannel::Unorm }),
        TranscodeTargetFormat::AtcRgb => None,
        TranscodeTargetFormat::AtcRgba => None,
        TranscodeTargetFormat::Fxt1Rgb => None,
        TranscodeTargetFormat::Pvrtc2_4Rgb => None,
        TranscodeTargetFormat::Pvrtc2_4Rgba => None,
        TranscodeTargetFormat::Etc2EacR11 => Some(TextureFormat::EacR11Unorm),
        TranscodeTargetFormat::Etc2EacRg11 => Some(TextureFormat::EacRg11Unorm),
        TranscodeTargetFormat::Bc6H => Some(TextureFormat::Bc6hRgbUfloat),
        TranscodeTargetFormat::AstcHdr4x4Rgba => Some(TextureFormat::Astc { block: AstcBlock::B4x4, channel: AstcChannel::Hdr }),
        TranscodeTargetFormat::RGBA32 => Some(TextureFormat::Rgba8Unorm),
        TranscodeTargetFormat::RGB565 => None,
        TranscodeTargetFormat::BGR565 => None,
        TranscodeTargetFormat::RGBA4444 => None,
        TranscodeTargetFormat::RgbHalf => None,
        TranscodeTargetFormat::RgbaHalf => Some(TextureFormat::Rgba16Float),
        TranscodeTargetFormat::Rgb9e5 => Some(TextureFormat::Rgb9e5Ufloat),
        TranscodeTargetFormat::AstcHdr6x6Rgba => Some(TextureFormat::Astc { block: AstcBlock::B6x6, channel: AstcChannel::Hdr }),
        TranscodeTargetFormat::AstcLdr5x4Rgba => Some(TextureFormat::Astc { block: AstcBlock::B5x4, channel: AstcChannel::Unorm }),
        TranscodeTargetFormat::AstcLdr5x5Rgba => Some(TextureFormat::Astc { block: AstcBlock::B5x5, channel: AstcChannel::Unorm }),
        TranscodeTargetFormat::AstcLdr6x5Rgba => Some(TextureFormat::Astc { block: AstcBlock::B6x5, channel: AstcChannel::Unorm }),
        TranscodeTargetFormat::AstcLdr6x6Rgba => Some(TextureFormat::Astc { block: AstcBlock::B6x6, channel: AstcChannel::Unorm }),
        TranscodeTargetFormat::AstcLdr8x5Rgba => Some(TextureFormat::Astc { block: AstcBlock::B8x5, channel: AstcChannel::Unorm }),
        TranscodeTargetFormat::AstcLdr8x6Rgba => Some(TextureFormat::Astc { block: AstcBlock::B8x6, channel: AstcChannel::Unorm }),
        TranscodeTargetFormat::AstcLdr10x5Rgba => Some(TextureFormat::Astc { block: AstcBlock::B10x5, channel: AstcChannel::Unorm }),
        TranscodeTargetFormat::AstcLdr10x6Rgba => Some(TextureFormat::Astc { block: AstcBlock::B10x6, channel: AstcChannel::Unorm }),
        TranscodeTargetFormat::AstcLdr8x8Rgba => Some(TextureFormat::Astc { block: AstcBlock::B8x8, channel: AstcChannel::Unorm }),
        TranscodeTargetFormat::AstcLdr10x8Rgba => Some(TextureFormat::Astc { block: AstcBlock::B10x8, channel: AstcChannel::Unorm }),
        TranscodeTargetFormat::AstcLdr10x10Rgba => Some(TextureFormat::Astc { block: AstcBlock::B10x10, channel: AstcChannel::Unorm }),
        TranscodeTargetFormat::AstcLdr12x10Rgba => Some(TextureFormat::Astc { block: AstcBlock::B12x10, channel: AstcChannel::Unorm }),
        TranscodeTargetFormat::AstcLdr12x12Rgba => Some(TextureFormat::Astc { block: AstcBlock::B12x12, channel: AstcChannel::Unorm }),
    }
}

/// The WebGPU texture format of a transcode target (see [`wgpu_format_of`]).
pub fn transcode_target_to_wgpu_format(transcode: TranscodeTargetFormat) -> (r: Option<
    TextureFormat,
>)
    ensures
        r == wgpu_format_of(transcode),
{
    match transcode {
        TranscodeTargetFormat::Etc1Rgb => Some(TextureFormat::Etc2Rgb8Unorm),
        TranscodeTargetFormat::Etc2Rgba => Some(TextureFormat::Etc2Rgba8Unorm),
        TranscodeTargetFormat::Bc1Rgb => Some(TextureFormat::Bc1RgbaUnorm),
        TranscodeTargetFormat::Bc3Rgba => Some(TextureFormat::Bc3RgbaUnorm),
        TranscodeTargetFormat::Bc4R => Some(TextureFormat::Bc4RUnorm),
        TranscodeTargetFormat::Bc5Rg => Some(TextureFormat::Bc5RgUnorm),
        TranscodeTargetFormat::Bc7Rgba => Some(TextureFormat::Bc7RgbaUnorm),
        TranscodeTargetFormat::Pvrtc1_4Rgb => None,
        TranscodeTargetFormat::Pvrtc1_4Rgba => None,
        TranscodeTargetFormat::AstcLdr4x4Rgba => Some(TextureFormat::Astc { block: AstcBlock::B4x4, channel: AstcChannel::Unorm }),
        TranscodeTargetFormat::AtcRgb => None,
        TranscodeTargetFormat::AtcRgba => None,
        TranscodeTargetFormat::Fxt1Rgb => None,
        TranscodeTargetFormat::Pvrtc2_4Rgb => None,
        TranscodeTargetFormat::Pvrtc2_4Rgba => None,
        TranscodeTargetFormat::Etc2EacR11 => Some(TextureFormat::EacR11Unorm),
        TranscodeTargetFormat::Etc2EacRg11 => Some(TextureFormat::EacRg11Unorm),
        TranscodeTargetFormat::Bc6H => Some(TextureFormat::Bc6hRgbUfloat),
        TranscodeTargetFormat::AstcHdr4x4Rgba => Some(TextureFormat::Astc { block: AstcBlock::B4x4, channel: AstcChannel::Hdr }),
        TranscodeTargetFormat::RGBA32 => Some(TextureFormat::Rgba8Unorm),
        TranscodeTargetFormat::RGB565 => None,
        TranscodeTargetFormat::BGR565 => None,
        TranscodeTargetFormat::RGBA4444 => None,
        TranscodeTargetFormat::RgbHalf => None,
        TranscodeTargetFormat::RgbaHalf => Some(TextureFormat::Rgba16Float),
        TranscodeTargetFormat::Rgb9e5 => Some(TextureFormat::Rgb9e5Ufloat),
        TranscodeTargetFormat::AstcHdr6x6Rgba => Some(TextureFormat::Astc { block: AstcBlock::B6x6, channel: AstcChannel::Hdr }),
        TranscodeTargetFormat::AstcLdr5x4Rgba => Some(TextureFormat::Astc { block: AstcBlock::B5x4, channel: AstcChannel::Unorm }),
        TranscodeTargetFormat::AstcLdr5x5Rgba => Some(TextureFormat::Astc { block: AstcBlock::B5x5, channel: AstcChannel::Unorm }),
        TranscodeTargetFormat::AstcLdr6x5Rgba => Some(TextureFormat::Astc { block: AstcBlock::B6x5, channel: AstcChannel::Unorm }),
        TranscodeTargetFormat::AstcLdr6x6Rgba => Some(TextureFormat::Astc { block: AstcBlock::B6x6, channel: AstcChannel::Unorm }),
        TranscodeTargetFormat::AstcLdr8x5Rgba => Some(TextureFormat::Astc { block: AstcBlock::B8x5, channel: AstcChannel::Unorm }),
        TranscodeTargetFormat::AstcLdr8x6Rgba => Some(TextureFormat::Astc { block: AstcBlock::B8x6, channel: AstcChannel::Unorm }),
        TranscodeTargetFormat::AstcLdr10x5Rgba => Some(TextureFormat::Astc { block: AstcBlock::B10x5, channel: AstcChannel::Unorm }),
        TranscodeTargetFormat::AstcLdr10x6Rgba => Some(TextureFormat::Astc { block: AstcBlock::B10x6, channel: AstcChannel::Unorm }),
        TranscodeTargetFormat::AstcLdr8x8Rgba => Some(TextureFormat::Astc { block: AstcBlock::B8x8, channel: AstcChannel::Unorm }),
        TranscodeTargetFormat::AstcLdr10x8Rgba => Some(TextureFormat::Astc { block: AstcBlock::B10x8, channel: AstcChannel::Unorm }),
        TranscodeTargetFormat::AstcLdr10x10Rgba => Some(TextureFormat::Astc { block: AstcBlock::B10x10, channel: AstcChannel::Unorm }),
        TranscodeTargetFormat::AstcLdr12x10Rgba => Some(TextureFormat::Astc { block: AstcBlock::B12x10, channel: AstcChannel::Unorm }),
        TranscodeTargetFormat::AstcLdr12x12Rgba => Some(TextureFormat::Astc { block: AstcBlock::B12x12, channel: AstcChannel::Unorm }),
    }
}

/// Whether the device can sample the transcode target `t`: the compressed
/// targets need their family to be supported, the uncompressed ones need
/// nothing, and PVRTC, ATC and FXT1 are never usable.
pub open spec fn target_supported_by(t: TranscodeTargetFormat, s: SupportedTextureCompression) -> bool {
    match t {
        TranscodeTargetFormat::Etc1Rgb | TranscodeTargetFormat::Etc2Rgba
        | TranscodeTargetFormat::Etc2EacR11 | TranscodeTargetFormat::Etc2EacRg11 => s.etc2_supported(),
        TranscodeTargetFormat::Bc1Rgb | TranscodeTargetFormat::Bc3Rgba | TranscodeTargetFormat::Bc4R
        | TranscodeTargetFormat::Bc5Rg | TranscodeTargetFormat::Bc7Rgba
        | TranscodeTargetFormat::Bc6H => s.bc_supported(),
        TranscodeTargetFormat::AstcHdr4x4Rgba | TranscodeTargetFormat::AstcHdr6x6Rgba => s.astc_hdr_supported(),
        TranscodeTargetFormat::RGBA32 | TranscodeTargetFormat::RGB565 | TranscodeTargetFormat::BGR565
        | TranscodeTargetFormat::RGBA4444 | TranscodeTargetFormat::RgbHalf
        | TranscodeTargetFormat::RgbaHalf | TranscodeTargetFormat::Rgb9e5 => true,
        TranscodeTargetFormat::Pvrtc1_4Rgb | TranscodeTargetFormat::Pvrtc1_4Rgba
        | TranscodeTargetFormat::AtcRgb | TranscodeTargetFormat::AtcRgba
        | TranscodeTargetFormat::Fxt1Rgb | TranscodeTargetFormat::Pvrtc2_4Rgb
        | TranscodeTargetFormat::Pvrtc2_4Rgba => false,
        _ => s.astc_ldr_supported(),
    }
}

/// The preferred target always has a WebGPU format, and the device supports
/// it: selection never picks a compression family that the device lacks.
pub proof fn lemma_preferred_target_is_usable(
    f: BasisTextureFormat,
    c: ChannelType,
    s: SupportedTextureCompression,
)
    ensures
        wgpu_format_of(preferred_target_of(f, c, s)) is Some,
        target_supported_by(preferred_target_of(f, c, s), s),
{
}

/// `Auto` selects as `Rgba` does, and the channel type changes the selection
/// only for ETC1S data, or when of the families that the data could use the
/// device supports ETC2 alone.
pub proof fn lemma_channel_type_matters_only_for_etc(
    f: BasisTextureFormat,
    c1: ChannelType,
    c2: ChannelType,
    s: SupportedTextureCompression,
)
    ensures
        preferred_target_of(f, ChannelType::Auto, s) == preferred_target_of(f, ChannelType::Rgba, s),
        f != BasisTextureFormat::Etc1s && preferred_target_of(f, c1, s) != preferred_target_of(f, c2, s)
            ==> s.etc2_supported() && !s.bc_supported() && !s.astc_ldr_supported(),
{
}

/// Without any supported compression family the selection is uncompressed:
/// half-float RGBA for HDR data, 8 bit RGBA otherwise.
pub proof fn lemma_no_compression_is_uncompressed(f: BasisTextureFormat, c: ChannelType)
    ensures
        preferred_target_of(f, c, SupportedTextureCompression { bits: 0 }) == (match f {
            BasisTextureFormat::UastcHdr4x4 | BasisTextureFormat::AstcHdr6x6
            | BasisTextureFormat::UastcHdr6x6 => TranscodeTargetFormat::RgbaHalf,
            _ => TranscodeTargetFormat::RGBA32,
        }),
{
    assert(0u8 & 1u8 == 0u8) by (bit_vector);
    assert(0u8 & 2u8 == 0u8) by (bit_vector);
    assert(0u8 & 4u8 == 0u8) by (bit_vector);
    assert(0u8 & 8u8 == 0u8) by (bit_vector);
}

/// What the transcoder reports of an opened KTX2 texture.
#[derive(Debug, Clone, Copy, PartialEq, Eq, Structural)]
pub struct Ktx2Header {
    /// Width of the base level.
    pub width: u32,
    /// Height of the base level.
    pub height: u32,
    /// Array layer count; 0 for a texture that is not an array.
    pub layers: u32,
    /// Mip level count.
    pub levels: u32,
    /// Face count.
    pub faces: u32,
    /// Whether the transfer function is sRGB.
    pub is_srgb: bool,
    /// The C API's number of the basis texture format.
    pub basis_format: u32,
    /// The first data format descriptor channel id.
    pub channel_id0: u32,
    /// The second data format descriptor channel id.
    pub channel_id1: u32,
    /// Whether the data is UASTC LDR 4x4.
    pub is_uastc_ldr_4x4: bool,
}

/// The channel type that target selection uses: the hint, unless it is
/// `Auto`, in which case the one the channel ids describe.
pub open spec fn effective_channel_type(h: Ktx2Header, hint: ChannelType) -> ChannelType {
    if hint != ChannelType::Auto {
        hint
    } else {
        channel_type_of_ids(h.is_uastc_ldr_4x4, h.channel_id0, h.channel_id1)
    }
}

/// The transcode info of a texture with header `h`: its header values, its
/// basis format, and the target that selection prefers for the device.
pub open spec fn header_info(h: Ktx2Header, s: SupportedTextureCompression, hint: ChannelType) -> TranscodeInfo {
    let f = basis_format_of_code(h.basis_format).unwrap();
    TranscodeInfo {
        width: h.width,
        height: h.height,
        levels: h.levels,
        layers: h.layers,
        faces: h.faces,
        is_srgb: h.is_srgb,
        basis_format: f,
        preferred_target: preferred_target_of(f, effective_channel_type(h, hint), s),
    }
}

/// The transcode info of a texture with header `h`, or the error for a face
/// count other than 1 or 6.
pub open spec fn info_from_header(
    h: Ktx2Header,
    s: SupportedTextureCompression,
    hint: ChannelType,
) -> Result<TranscodeInfo, BasisuTranscodeError> {
    if h.faces != 1 && h.faces != 6 {
        Err(BasisuTranscodeError::InvalidFaceCount(h.faces))
    } else {
        Ok(header_info(h, s, hint))
    }
}

/// The transcode info of a texture with header `header` (see
/// [`header_info`]).
pub fn info_of_header(
    header: &Ktx2Header,
    supported_compressed_formats: SupportedTextureCompression,
    channel_type_hint: ChannelType,
) -> (r: TranscodeInfo)
    requires
        header.basis_format < BTF_TOTAL_FORMATS,
    ensures
        r == header_info(*header, supported_compressed_formats, channel_type_hint),
{
    let basis_format = match BasisTextureFormat::try_from(header.basis_format) {
        Ok(f) => f,
        Err(_) => BasisTextureFormat::Etc1s,
    };
    let channel_type = if channel_type_hint != ChannelType::Auto {
        channel_type_hint
    } else {
        channel_id_to_type(header.is_uastc_ldr_4x4, header.channel_id0, header.channel_id1)
    };
    let preferred_target = select_preferred_transcode_target(
        basis_format,
        channel_type,
        supported_compressed_formats,
    );
    TranscodeInfo {
        width: header.width,
        height: header.height,
        levels: header.levels,
        layers: header.layers,
        faces: header.faces,
        is_srgb: header.is_srgb,
        basis_format,
        preferred_target,
    }
}

/// Checks the length of the input data: empty input and input longer than
/// the C API can address are refused; otherwise the length as the C API
/// takes it.
pub fn check_input_len(len: usize) -> (r: Result<u32, BasisuTranscodeError>)
    ensures
        len == 0 ==> r == Err::<u32, BasisuTranscodeError>(BasisuTranscodeError::EmptyInputData),
        len > u32::MAX ==> r == Err::<u32, BasisuTranscodeError>(
            BasisuTranscodeError::LoadKtx2DataFailed,
        ),
        0 < len <= u32::MAX ==> r == Ok::<u32, BasisuTranscodeError>(len as u32),
{
    if len == 0 {
        Err(BasisuTranscodeError::EmptyInputData)
    } else if len > 0xffff_ffffusize {
        Err(BasisuTranscodeError::LoadKtx2DataFailed)
    } else {
        Ok(len as u32)
    }
}

/// A transcoder over one opened KTX2 texture.
pub struct BasisuTranscoder {
    ktx2_handle: u64,
    info: TranscodeInfo,
}

impl BasisuTranscoder {
    /// The texture is open, and it is a plain texture or a cubemap.
    #[verifier::type_invariant]
    closed spec fn well_formed(self) -> bool {
        &&& self.ktx2_handle != 0
        &&& self.info.faces == 1 || self.info.faces == 6
    }

    /// The transcode info of the opened texture.
    pub closed spec fn info_view(self) -> TranscodeInfo {
        self.info
    }

    /// The C handle of the opened texture.
    pub closed spec fn handle_view(self) -> u64 {
        self.ktx2_handle
    }

    /// The transcoder of the texture opened as `ktx2_handle`, whose header
    /// the C transcoder reported as `header`, for a device that supports
    /// `supported_compressed_formats`; the target is chosen as
    /// [`preferred_target_of`] states, with `channel_type_hint` unless it is
    /// `Auto`.
    pub fn new(
        ktx2_handle: u64,
        header: &Ktx2Header,
        supported_compressed_formats: SupportedTextureCompression,
        channel_type_hint: ChannelType,
    ) -> (r: Result<Self, BasisuTranscodeError>)
        requires
            ktx2_handle != 0,
            header.faces == 1 || header.faces == 6 ==> header.basis_format < BTF_TOTAL_FORMATS,
        ensures
            r is Ok <==> info_from_header(*header, supported_compressed_formats, channel_type_hint) is Ok,
            r matches Err(e) ==> info_from_header(*header, supported_compressed_formats, channel_type_hint)
                == Err::<TranscodeInfo, BasisuTranscodeError>(e),
            r matches Ok(t) ==> {
                &&& Ok::<TranscodeInfo, BasisuTranscodeError>(t.info_view()) == info_from_header(
                    *header,
                    supported_compressed_formats,
                    channel_type_hint,
                )
                &&& t.handle_view() == ktx2_handle
            },
    {
        let faces = header.faces;
        if faces != 1 && faces != 6 {
            return Err(BasisuTranscodeError::InvalidFaceCount(faces));
        }
        let info = info_of_header(header, supported_compressed_formats, channel_type_hint);
        Ok(BasisuTranscoder { ktx2_handle, info })
    }

    /// Get the input info [`TranscodeInfo`].
    pub fn get_info(&self) -> (r: TranscodeInfo)
        ensures
            r == self.info_view(),
            r.faces == 1 || r.faces == 6,
    {
        proof {
            use_type_invariant(self);
        }
        self.info
    }

    /// The C handle of the opened texture.
    pub fn ktx2_handle(&self) -> (r: u64)
        ensures
            r == self.handle_view(),
            r != 0,
    {
        proof {
            use_type_invariant(self);
        }
        self.ktx2_handle
    }
}

/// A transcoded image, ready to be uploaded.
#[derive(Debug, Clone, PartialEq)]
pub struct TranscodedImage {
    /// The image data: every slice, mip level by mip level, and within a
    /// level layer by layer and face by face.
    pub data: Vec<u8>,
    /// The size of the transcoded image.
    pub size: Extent3d,
    /// The format of the transcoded image.
    pub format: TextureFormat,
    /// The mip level count.
    pub mip_level_count: u32,
    /// The texture view dimension: D2, D2Array, Cube or CubeArray.
    pub view_dimension: TextureViewDimension,
}

/// The layer count of a transcode: a texture that is not an array has one.
pub open spec fn total_layers_of(info: TranscodeInfo) -> u32 {
    if info.layers == 0 {
        1
    } else {
        info.layers
    }
}

/// The view dimension of a texture with `layers` array layers (0 when it is
/// not an array) and `faces` faces (1 or 6).
pub open spec fn view_dimension_of(layers: u32, faces: u32) -> TextureViewDimension {
    if layers == 0 {
        if faces == 1 {
            TextureViewDimension::D2
        } else {
            TextureViewDimension::Cube
        }
    } else if faces == 1 {
        TextureViewDimension::D2Array
    } else {
        TextureViewDimension::CubeArray
    }
}

/// The output format: the target's WebGPU format, with the sRGB suffix when
/// `srgb` holds and without it otherwise.
pub open spec fn output_format_of(format: TextureFormat, srgb: bool) -> TextureFormat {
    if srgb {
        format.with_srgb()
    } else {
        format.without_srgb()
    }
}

/// Everything about a transcode that does not depend on the pixels.
#[derive(Debug, Clone, Copy, PartialEq, Eq, Structural)]
pub struct TranscodePlan {
    /// The transcode target.
    pub target: TranscodeTargetFormat,
    /// The WebGPU format of the result.
    pub format: TextureFormat,
    /// The layer count of the transcode (at least 1).
    pub total_layers: u32,
    /// The size of the result: the base level's width and height, and every
    /// layer's faces as its depth.
    pub size: Extent3d,
    /// The mip level count.
    pub mip_level_count: u32,
    /// The view dimension of the result.
    pub view_dimension: TextureViewDimension,
}

/// The plan of transcoding a texture with `info` to `target`, where
/// `target_supported` says whether the transcoder can produce `target` from
/// the texture's basis format; the sRGB-ness is `is_srgb`, or the texture's
/// own when it is `None`.
pub open spec fn plan_of(
    info: TranscodeInfo,
    target: TranscodeTargetFormat,
    target_supported: bool,
    is_srgb: Option<bool>,
) -> Result<TranscodePlan, BasisuTranscodeError> {
    if !target_supported || wgpu_format_of(target) is None {
        Err(BasisuTranscodeError::UnsupportedTranscodeTarget)
    } else {
        let srgb = match is_srgb {
            Some(b) => b,
            None => info.is_srgb,
        };
        Ok(
            TranscodePlan {
                target,
                format: output_format_of(wgpu_format_of(target).unwrap(), srgb),
                total_layers: total_layers_of(info),
                size: Extent3d {
                    width: info.width,
                    height: info.height,
                    depth_or_array_layers: (total_layers_of(info) * info.faces) as u32,
                },
                mip_level_count: info.levels,
                view_dimension: view_dimension_of(info.layers, info.faces),
            },
        )
    }
}

/// Whether the depth of a transcode of `info` fits in a `u32`.
pub open spec fn depth_fits(info: TranscodeInfo) -> bool {
    total_layers_of(info) * info.faces <= u32::MAX
}

/// Whether the depth of a transcode of `info` fits in a `u32` (see
/// [`depth_fits`]).
pub fn depth_fits_info(info: &TranscodeInfo) -> (r: bool)
    ensures
        r == depth_fits(*info),
{
    let layers: u64 = if info.layers == 0 {
        1
    } else {
        info.layers as u64
    };
    let faces = info.faces as u64;
    proof {
        assert(layers * faces <= 0xffff_ffffu64 * 0xffff_ffffu64) by (nonlinear_arith)
            requires
                layers <= 0xffff_ffffu64,
                faces <= 0xffff_ffffu64,
        ;
    }
    layers * faces <= 0xffff_ffffu64
}

impl BasisuTranscoder {
    /// The transcode target: `transcode_target`, or the preferred one when
    /// it is `None`.
    pub fn target_for(&self, transcode_target: Option<TranscodeTargetFormat>) -> (r:
        TranscodeTargetFormat)
        ensures
            r == (match transcode_target {
                Some(t) => t,
                None => self.info_view().preferred_target,
            }),
    {
        match transcode_target {
            Some(t) => t,
            None => self.info.preferred_target,
        }
    }

    /// Whether the depth of a transcode fits in a `u32`.
    pub fn depth_fits(&self) -> (r: bool)
        ensures
            r == depth_fits(self.info_view()),
    {
        depth_fits_info(&self.info)
    }

    /// Plans the transcode to `target`, where `target_supported` is what the
    /// transcoder answers to whether it can produce `target` from the
    /// texture's basis format (see [`plan_of`]).
    pub fn plan_transcode(
        &self,
        target: TranscodeTargetFormat,
        target_supported: bool,
        is_srgb: Option<bool>,
    ) -> (r: Result<TranscodePlan, BasisuTranscodeError>)
        requires
            target_supported && wgpu_format_of(target) is Some ==> depth_fits(self.info_view()),
        ensures
            r == plan_of(self.info_view(), target, target_supported, is_srgb),
    {
        proof {
            use_type_invariant(self);
        }
        plan_transcode_of(&self.info, target, target_supported, is_srgb)
    }
}

/// Plans the transcode of a texture with `info` to `target`, where
/// `target_supported` is what the transcoder answers to whether it can
/// produce `target` from the texture's basis format (see [`plan_of`]).
pub fn plan_transcode_of(
    info: &TranscodeInfo,
    target: TranscodeTargetFormat,
    target_supported: bool,
    is_srgb: Option<bool>,
) -> (r: Result<TranscodePlan, BasisuTranscodeError>)
    requires
        target_supported && wgpu_format_of(target) is Some ==> (info.faces == 1 || info.faces
            == 6) && depth_fits(*info),
    ensures
        r == plan_of(*info, target, target_supported, is_srgb),
{
    let info = *info;
    if !target_supported {
        return Err(BasisuTranscodeError::UnsupportedTranscodeTarget);
    }
    let out_format = match transcode_target_to_wgpu_format(target) {
        Some(f) => f,
        None => return Err(BasisuTranscodeError::UnsupportedTranscodeTarget),
    };
    let total_layers = if info.layers == 0 {
        1
    } else {
        info.layers
    };
    let view_dimension = if info.layers == 0 {
        if info.faces == 1 {
            TextureViewDimension::D2
        } else {
            TextureViewDimension::Cube
        }
    } else if info.faces == 1 {
        TextureViewDimension::D2Array
    } else {
        TextureViewDimension::CubeArray
    };
    let srgb = match is_srgb {
        Some(b) => b,
        None => info.is_srgb,
    };
    let format = if srgb {
        out_format.add_srgb_suffix()
    } else {
        out_format.remove_srgb_suffix()
    };
    Ok(
        TranscodePlan {
            target,
            format,
            total_layers,
            size: Extent3d {
                width: info.width,
                height: info.height,
                depth_or_array_layers: total_layers * info.faces,
            },
            mip_level_count: info.levels,
            view_dimension,
        },
    )
}

/// The sum of `s`.
pub open spec fn sum_of(s: Seq<u32>) -> int
    decreases s.len(),
{
    if s.len() == 0 {
        0
    } else {
        sum_of(s.drop_last()) + s.last()
    }
}

/// The offsets at which the slices of sizes `sizes` start when they are laid
/// out one after the other, and the total size.
pub fn slice_offsets(sizes: &Vec<u32>) -> (r: (Vec<u64>, u32))
    requires
        sum_of(sizes@) <= u32::MAX,
    ensures
        r.0@.len() == sizes@.len(),
        forall|i: int| 0 <= i < sizes@.len() ==> #[trigger] r.0@[i] == sum_of(sizes@.take(i)),
        r.1 == sum_of(sizes@),
{
    let mut offsets: Vec<u64> = Vec::new();
    let mut total: u32 = 0;
    let mut i: usize = 0;
    proof {
        lemma_sum_of_prefix_bounded(sizes@, sizes@.len() as int);
    }
    while i < sizes.len()
        invariant
            i <= sizes@.len(),
            offsets@.len() == i,
            forall|j: int| 0 <= j < i ==> #[trigger] offsets@[j] == sum_of(sizes@.take(j)),
            total == sum_of(sizes@.take(i as int)),
            sum_of(sizes@) <= u32::MAX,
        decreases sizes@.len() - i,
    {
        offsets.push(total as u64);
        proof {
            assert(sizes@.take(i as int + 1).drop_last() =~= sizes@.take(i as int));
            lemma_sum_of_prefix_bounded(sizes@, i as int + 1);
        }
        total = total + sizes[i];
        i = i + 1;
    }
    assert(sizes@.take(sizes@.len() as int) =~= sizes@);
    (offsets, total)
}

/// A prefix of a sequence sums to no more than the whole.
pub proof fn lemma_sum_of_prefix_bounded(s: Seq<u32>, n: int)
    requires
        0 <= n <= s.len(),
    ensures
        0 <= sum_of(s.take(n)) <= sum_of(s),
    decreases s.len(),
{
    if s.len() == 0 {
        assert(s.take(n) =~= s);
    } else if n == s.len() {
        assert(s.take(n) =~= s);
        lemma_sum_of_nonneg(s);
    } else {
        lemma_sum_of_prefix_bounded(s.drop_last(), n);
        assert(s.drop_last().take(n) =~= s.take(n));
    }
}

/// A sum of unsigned numbers is not negative.
pub proof fn lemma_sum_of_nonneg(s: Seq<u32>)
    ensures
        sum_of(s) >= 0,
    decreases s.len(),
{
    if s.len() > 0 {
        lemma_sum_of_nonneg(s.drop_last());
    }
}

/// The number of blocks (or pixels) that `bytes` bytes of a target hold at
/// `bytes_per_block_or_pixel` each.
pub fn block_count(bytes: u32, bytes_per_block_or_pixel: u32) -> (r: u32)
    requires
        bytes_per_block_or_pixel != 0,
    ensures
        r == bytes / bytes_per_block_or_pixel,
{
    bytes / bytes_per_block_or_pixel
}

/// The transcoded image of `plan` whose slices are `data`.
pub fn finish_transcode(plan: &TranscodePlan, data: Vec<u8>) -> (r: TranscodedImage)
    ensures
        r.data@ == data@,
        r.size == plan.size,
        r.format == plan.format,
        r.mip_level_count == plan.mip_level_count,
        r.view_dimension == plan.view_dimension,
{
    TranscodedImage {
        data,
        size: plan.size,
        format: plan.format,
        mip_level_count: plan.mip_level_count,
        view_dimension: plan.view_dimension,
    }
}

/// The slices of layer `layer` of level `level`: one per face.
pub open spec fn face_slices(level: u32, layer: u32, faces: u32) -> Seq<(u32, u32, u32)> {
    Seq::new(faces as nat, |f: int| (level, layer, f as u32))
}

/// The slices of the first `n` layers of level `level`, layer by layer.
pub open spec fn layer_slices(level: u32, n: nat, faces: u32) -> Seq<(u32, u32, u32)>
    decreases n,
{
    if n == 0 {
        Seq::empty()
    } else {
        layer_slices(level, (n - 1) as nat, faces) + face_slices(level, (n - 1) as u32, faces)
    }
}

/// The slices of the first `n` levels, level by level: the order in which
/// the transcoded data is laid out (mip-major).
pub open spec fn level_slices(n: nat, total_layers: u32, faces: u32) -> Seq<(u32, u32, u32)>
    decreases n,
{
    if n == 0 {
        Seq::empty()
    } else {
        level_slices((n - 1) as nat, total_layers, faces) + layer_slices(
            (n - 1) as u32,
            total_layers as nat,
            faces,
        )
    }
}

/// The slices lie back to back: slice `i` starts where slice `i - 1` ends,
/// and the last one ends at the total.
pub proof fn lemma_slices_back_to_back(sizes: Seq<u32>, i: int)
    requires
        0 <= i < sizes.len(),
    ensures
        sum_of(sizes.take(i + 1)) == sum_of(sizes.take(i)) + sizes[i],
        sum_of(sizes.take(sizes.len() as int)) == sum_of(sizes),
{
    assert(sizes.take(i + 1).drop_last() =~= sizes.take(i));
    assert(sizes.take(sizes.len() as int) =~= sizes);
}

/// The (level, layer, face) of every slice of a transcode, in the order
/// in which the transcoded data lays them out: mip level by mip level,
/// and within a level layer by layer and face by face.
pub fn transcode_slices(info: &TranscodeInfo) -> (r: Vec<(u32, u32, u32)>)
    ensures
        r@ == level_slices(info.levels as nat, total_layers_of(*info), info.faces),
{
    let info = *info;
    let total_layers = if info.layers == 0 {
        1
    } else {
        info.layers
    };
    let mut r: Vec<(u32, u32, u32)> = Vec::new();
    let mut level: u32 = 0;
    while level < info.levels
        invariant
            level <= info.levels,
            total_layers == total_layers_of(info),
            r@ == level_slices(level as nat, total_layers, info.faces),
        decreases info.levels - level,
    {
        let ghost before_level = r@;
        let mut layer: u32 = 0;
        while layer < total_layers
            invariant
                layer <= total_layers,
                level < info.levels,
                r@ == before_level + layer_slices(level, layer as nat, info.faces),
            decreases total_layers - layer,
        {
            let ghost before_layer = r@;
            let mut face: u32 = 0;
            while face < info.faces
                invariant
                    face <= info.faces,
                    r@ == before_layer + face_slices(level, layer, face),
                decreases info.faces - face,
            {
                r.push((level, layer, face));
                proof {
                    assert(face_slices(level, layer, (face + 1) as u32) =~= face_slices(
                        level,
                        layer,
                        face,
                    ).push((level, layer, face)));
                    assert(r@ =~= before_layer + face_slices(level, layer, (face + 1) as u32));
                }
                face = face + 1;
            }
            proof {
                assert(r@ =~= before_level + layer_slices(level, (layer + 1) as nat, info.faces));
            }
            layer = layer + 1;
        }
        proof {
            assert(r@ =~= level_slices((level + 1) as nat, total_layers, info.faces));
        }
        level = level + 1;
    }
    r
}

impl BasisuTranscoder {
    /// The (level, layer, face) of every slice of a transcode, in the order
    /// in which the transcoded data lays them out: mip level by mip level,
    /// and within a level layer by layer and face by face.
    pub fn slices(&self) -> (r: Vec<(u32, u32, u32)>)
        ensures
            r@ == level_slices(
                self.info_view().levels as nat,
                total_layers_of(self.info_view()),
                self.info_view().faces,
            ),
    {
        transcode_slices(&self.info)
    }
}

/// How many channels a transcode target stores: 1 for red, 2 for red and
/// green, 3 for RGB, 4 for RGBA.
pub open spec fn target_channels(t: TranscodeTargetFormat) -> nat {
    match t {
        TranscodeTargetFormat::Bc4R | TranscodeTargetFormat::Etc2EacR11 => 1,
        TranscodeTargetFormat::Bc5Rg | TranscodeTargetFormat::Etc2EacRg11 => 2,
        TranscodeTargetFormat::Etc1Rgb | TranscodeTargetFormat::Bc1Rgb
        | TranscodeTargetFormat::Pvrtc1_4Rgb | TranscodeTargetFormat::AtcRgb
        | TranscodeTargetFormat::Fxt1Rgb | TranscodeTargetFormat::Pvrtc2_4Rgb
        | TranscodeTargetFormat::Bc6H | TranscodeTargetFormat::RGB565
        | TranscodeTargetFormat::BGR565 | TranscodeTargetFormat::RgbHalf
        | TranscodeTargetFormat::Rgb9e5 => 3,
        _ => 4,
    }
}

/// How many channels data of a channel type has; `Auto` counts as RGBA.
pub open spec fn channel_count(c: ChannelType) -> nat {
    match c {
        ChannelType::R => 1,
        ChannelType::Rg => 2,
        ChannelType::Rgb => 3,
        ChannelType::Rgba | ChannelType::Auto => 4,
    }
}

/// Whether a basis format holds HDR data.
pub open spec fn is_hdr_basis(f: BasisTextureFormat) -> bool {
    f == BasisTextureFormat::UastcHdr4x4 || f == BasisTextureFormat::AstcHdr6x6
        || f == BasisTextureFormat::UastcHdr6x6
}

/// Whether a transcode target stores HDR values.
pub open spec fn is_hdr_target(t: TranscodeTargetFormat) -> bool {
    t == TranscodeTargetFormat::AstcHdr4x4Rgba || t == TranscodeTargetFormat::AstcHdr6x6Rgba
        || t == TranscodeTargetFormat::Bc6H || t == TranscodeTargetFormat::RgbHalf
        || t == TranscodeTargetFormat::RgbaHalf
}

/// Selection keeps the data's channels and range: for LDR data the chosen
/// target stores at least the channels of the channel type (so RGBA data,
/// or data whose type is left to `Auto`, always gets a target with alpha),
/// and HDR data, and only HDR data, gets an HDR target.
pub proof fn lemma_preferred_target_keeps_channels(
    f: BasisTextureFormat,
    c: ChannelType,
    s: SupportedTextureCompression,
)
    ensures
        !is_hdr_basis(f) ==> channel_count(c) <= target_channels(preferred_target_of(f, c, s)),
        is_hdr_basis(f) <==> is_hdr_target(preferred_target_of(f, c, s)),
{
}

/// The block width and height in texels of a transcode target: 4 by 4 for
/// the BC, ETC, EAC, PVRTC, ATC targets, 8 by 4 for FXT1, the ASTC block
/// size that the target's name gives, and 1 by 1 for the uncompressed ones.
pub open spec fn target_block_dims(t: TranscodeTargetFormat) -> (nat, nat) {
    match t {
        TranscodeTargetFormat::Fxt1Rgb => (8, 4),
        TranscodeTargetFormat::AstcLdr4x4Rgba | TranscodeTargetFormat::AstcHdr4x4Rgba => (4, 4),
        TranscodeTargetFormat::AstcLdr5x4Rgba => (5, 4),
        TranscodeTargetFormat::AstcLdr5x5Rgba => (5, 5),
        TranscodeTargetFormat::AstcLdr6x5Rgba => (6, 5),
        TranscodeTargetFormat::AstcLdr6x6Rgba | TranscodeTargetFormat::AstcHdr6x6Rgba => (6, 6),
        TranscodeTargetFormat::AstcLdr8x5Rgba => (8, 5),
        TranscodeTargetFormat::AstcLdr8x6Rgba => (8, 6),
        TranscodeTargetFormat::AstcLdr10x5Rgba => (10, 5),
        TranscodeTargetFormat::AstcLdr10x6Rgba => (10, 6),
        TranscodeTargetFormat::AstcLdr8x8Rgba => (8, 8),
        TranscodeTargetFormat::AstcLdr10x8Rgba => (10, 8),
        TranscodeTargetFormat::AstcLdr10x10Rgba => (10, 10),
        TranscodeTargetFormat::AstcLdr12x10Rgba => (12, 10),
        TranscodeTargetFormat::AstcLdr12x12Rgba => (12, 12),
        TranscodeTargetFormat::RGBA32 | TranscodeTargetFormat::RGB565
        | TranscodeTargetFormat::BGR565 | TranscodeTargetFormat::RGBA4444
        | TranscodeTargetFormat::RgbHalf | TranscodeTargetFormat::RgbaHalf
        | TranscodeTargetFormat::Rgb9e5 => (1, 1),
        _ => (4, 4),
    }
}

/// The bytes of one block of a transcode target (of one pixel for the
/// uncompressed ones).
pub open spec fn target_block_bytes(t: TranscodeTargetFormat) -> nat {
    match t {
        TranscodeTargetFormat::Etc1Rgb | TranscodeTargetFormat::Bc1Rgb
        | TranscodeTargetFormat::Bc4R | TranscodeTargetFormat::Pvrtc1_4Rgb
        | TranscodeTargetFormat::Pvrtc1_4Rgba | TranscodeTargetFormat::AtcRgb
        | TranscodeTargetFormat::Pvrtc2_4Rgb | TranscodeTargetFormat::Pvrtc2_4Rgba
        | TranscodeTargetFormat::Etc2EacR11 | TranscodeTargetFormat::RgbHalf
        | TranscodeTargetFormat::RgbaHalf => 8,
        TranscodeTargetFormat::RGBA32 | TranscodeTargetFormat::Rgb9e5 => 4,
        TranscodeTargetFormat::RGB565 | TranscodeTargetFormat::BGR565
        | TranscodeTargetFormat::RGBA4444 => 2,
        _ => 16,
    }
}

/// A target's WebGPU format lays its data out as the target does: same
/// block width and height, same bytes per block; an ASTC target's format is
/// ASTC, LDR targets unorm and HDR targets HDR; and it is a linear format.
pub proof fn lemma_wgpu_format_matches_target(t: TranscodeTargetFormat)
    ensures
        wgpu_format_of(t) matches Some(g) ==> {
            &&& format_block_dims(g) == target_block_dims(t)
            &&& format_block_bytes(g) == target_block_bytes(t)
            &&& !is_srgb_format(g)
        },
        is_astc_ldr_target(t) ==> (wgpu_format_of(t) matches Some(
            TextureFormat::Astc { block, channel },
        ) && channel == AstcChannel::Unorm && astc_block_dims(block) == target_block_dims(t)),
        (t == TranscodeTargetFormat::AstcHdr4x4Rgba || t == TranscodeTargetFormat::AstcHdr6x6Rgba)
            ==> (wgpu_format_of(t) matches Some(TextureFormat::Astc { block, channel })
            && channel == AstcChannel::Hdr && astc_block_dims(block) == target_block_dims(t)),
{
}

/// Whether `t` is one of the ASTC LDR targets.
pub open spec fn is_astc_ldr_target(t: TranscodeTargetFormat) -> bool {
    match t {
        TranscodeTargetFormat::AstcLdr4x4Rgba | TranscodeTargetFormat::AstcLdr5x4Rgba
        | TranscodeTargetFormat::AstcLdr5x5Rgba | TranscodeTargetFormat::AstcLdr6x5Rgba
        | TranscodeTargetFormat::AstcLdr6x6Rgba | TranscodeTargetFormat::AstcLdr8x5Rgba
        | TranscodeTargetFormat::AstcLdr8x6Rgba | TranscodeTargetFormat::AstcLdr10x5Rgba
        | TranscodeTargetFormat::AstcLdr10x6Rgba | TranscodeTargetFormat::AstcLdr8x8Rgba
        | TranscodeTargetFormat::AstcLdr10x8Rgba | TranscodeTargetFormat::AstcLdr10x10Rgba
        | TranscodeTargetFormat::AstcLdr12x10Rgba | TranscodeTargetFormat::AstcLdr12x12Rgba => true,
        _ => false,
    }
}

} // verus!
