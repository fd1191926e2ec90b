//! The Basis Universal texture formats and transcode targets, with the
//! numbers by which the C API knows them.
use vstd::prelude::*;

verus! {

/// An enum that wraps the `BTF_*` basis texture formats of the C API.
///
/// The variants are numbered from 0 in the order in which they are declared:
/// that is the numbering of the C API, and the value that [`BasisTextureFormat::to_u32`] gives.
#[derive(Debug, Clone, Copy, PartialEq, Eq, Hash, Structural)]
pub enum BasisTextureFormat {
    /// ETC1S: a low-bitrate LDR format whose RGB and alpha slices are decoded separately.
    Etc1s,
    /// UASTC LDR with 4x4 blocks (16 bytes per block).
    UastcLdr4x4,
    /// UASTC HDR with 4x4 blocks; transcodes to ASTC HDR or BC6H.
    UastcHdr4x4,
    /// ASTC HDR with 6x6 blocks; passed through unchanged.
    AstcHdr6x6,
    /// UASTC HDR with 6x6 blocks; transcodes to ASTC HDR or BC6H.
    UastcHdr6x6,
    /// XUASTC LDR with 4x4 blocks.
    XuastcLdr4x4,
    /// XUASTC LDR with 5x4 blocks.
    XuastcLdr5x4,
    /// XUASTC LDR with 5x5 blocks.
    XuastcLdr5x5,
    /// XUASTC LDR with 6x5 blocks.
    XuastcLdr6x5,
    /// XUASTC LDR with 6x6 blocks.
    XuastcLdr6x6,
    /// XUASTC LDR with 8x5 blocks.
    XuastcLdr8x5,
    /// XUASTC LDR with 8x6 blocks.
    XuastcLdr8x6,
    /// XUASTC LDR with 10x5 blocks.
    XuastcLdr10x5,
    /// XUASTC LDR with 10x6 blocks.
    XuastcLdr10x6,
    /// XUASTC LDR with 8x8 blocks.
    XuastcLdr8x8,
    /// XUASTC LDR with 10x8 blocks.
    XuastcLdr10x8,
    /// XUASTC LDR with 10x10 blocks.
    XuastcLdr10x10,
    /// XUASTC LDR with 12x10 blocks.
    XuastcLdr12x10,
    /// XUASTC LDR with 12x12 blocks.
    XuastcLdr12x12,
    /// ASTC LDR with 4x4 blocks; passed through unchanged.
    AstcLdr4x4,
    /// ASTC LDR with 5x4 blocks; passed through unchanged.
    AstcLdr5x4,
    /// ASTC LDR with 5x5 blocks; passed through unchanged.
    AstcLdr5x5,
    /// ASTC LDR with 6x5 blocks; passed through unchanged.
    AstcLdr6x5,
    /// ASTC LDR with 6x6 blocks; passed through unchanged.
    AstcLdr6x6,
    /// ASTC LDR with 8x5 blocks; passed through unchanged.
    AstcLdr8x5,
    /// ASTC LDR with 8x6 blocks; passed through unchanged.
    AstcLdr8x6,
    /// ASTC LDR with 10x5 blocks; passed through unchanged.
    AstcLdr10x5,
    /// ASTC LDR with 10x6 blocks; passed through unchanged.
    AstcLdr10x6,
    /// ASTC LDR with 8x8 blocks; passed through unchanged.
    AstcLdr8x8,
    /// ASTC LDR with 10x8 blocks; passed through unchanged.
    AstcLdr10x8,
    /// ASTC LDR with 10x10 blocks; passed through unchanged.
    AstcLdr10x10,
    /// ASTC LDR with 12x10 blocks; passed through unchanged.
    AstcLdr12x10,
    /// ASTC LDR with 12x12 blocks; passed through unchanged.
    AstcLdr12x12,
    /// XUBC7: a BC7-family LDR format that transcodes to BC7 or ASTC.
    Xubc7,
}

/// The number of [`BasisTextureFormat`] values in the C API.
pub const BTF_TOTAL_FORMATS: u32 = 34;

/// The C API's number for `f`.
pub open spec fn basis_format_code(f: BasisTextureFormat) -> u32 {
    match f {
        BasisTextureFormat::Etc1s => 0,
        BasisTextureFormat::UastcLdr4x4 => 1,
        BasisTextureFormat::UastcHdr4x4 => 2,
        BasisTextureFormat::AstcHdr6x6 => 3,
        BasisTextureFormat::UastcHdr6x6 => 4,
        BasisTextureFormat::XuastcLdr4x4 => 5,
        BasisTextureFormat::XuastcLdr5x4 => 6,
        BasisTextureFormat::XuastcLdr5x5 => 7,
        BasisTextureFormat::XuastcLdr6x5 => 8,
        BasisTextureFormat::XuastcLdr6x6 => 9,
        BasisTextureFormat::XuastcLdr8x5 => 10,
        BasisTextureFormat::XuastcLdr8x6 => 11,
        BasisTextureFormat::XuastcLdr10x5 => 12,
        BasisTextureFormat::XuastcLdr10x6 => 13,
        BasisTextureFormat::XuastcLdr8x8 => 14,
        BasisTextureFormat::XuastcLdr10x8 => 15,
        BasisTextureFormat::XuastcLdr10x10 => 16,
        BasisTextureFormat::XuastcLdr12x10 => 17,
        BasisTextureFormat::XuastcLdr12x12 => 18,
        BasisTextureFormat::AstcLdr4x4 => 19,
        BasisTextureFormat::AstcLdr5x4 => 20,
        BasisTextureFormat::AstcLdr5x5 => 21,
        BasisTextureFormat::AstcLdr6x5 => 22,
        BasisTextureFormat::AstcLdr6x6 => 23,
        BasisTextureFormat::AstcLdr8x5 => 24,
        BasisTextureFormat::AstcLdr8x6 => 25,
        BasisTextureFormat::AstcLdr10x5 => 26,
        BasisTextureFormat::AstcLdr10x6 => 27,
        BasisTextureFormat::AstcLdr8x8 => 28,
        BasisTextureFormat::AstcLdr10x8 => 29,
        BasisTextureFormat::AstcLdr10x10 => 30,
        BasisTextureFormat::AstcLdr12x10 => 31,
        BasisTextureFormat::AstcLdr12x12 => 32,
        BasisTextureFormat::Xubc7 => 33,
    }
}

/// The value that the C API's number `v` stands for, if any.
pub open spec fn basis_format_of_code(v: u32) -> Option<BasisTextureFormat> {
    match v {
        0 => Some(BasisTextureFormat::Etc1s),
        1 => Some(BasisTextureFormat::UastcLdr4x4),
        2 => Some(BasisTextureFormat::UastcHdr4x4),
        3 => Some(BasisTextureFormat::AstcHdr6x6),
        4 => Some(BasisTextureFormat::UastcHdr6x6),
        5 => Some(BasisTextureFormat::XuastcLdr4x4),
        6 => Some(BasisTextureFormat::XuastcLdr5x4),
        7 => Some(BasisTextureFormat::XuastcLdr5x5),
        8 => Some(BasisTextureFormat::XuastcLdr6x5),
        9 => Some(BasisTextureFormat::XuastcLdr6x6),
        10 => Some(BasisTextureFormat::XuastcLdr8x5),
        11 => Some(BasisTextureFormat::XuastcLdr8x6),
        12 => Some(BasisTextureFormat::XuastcLdr10x5),
        13 => Some(BasisTextureFormat::XuastcLdr10x6),
        14 => Some(BasisTextureFormat::XuastcLdr8x8),
        15 => Some(BasisTextureFormat::XuastcLdr10x8),
        16 => Some(BasisTextureFormat::XuastcLdr10x10),
        17 => Some(BasisTextureFormat::XuastcLdr12x10),
        18 => Some(BasisTextureFormat::XuastcLdr12x12),
        19 => Some(BasisTextureFormat::AstcLdr4x4),
        20 => Some(BasisTextureFormat::AstcLdr5x4),
        21 => Some(BasisTextureFormat::AstcLdr5x5),
        22 => Some(BasisTextureFormat::AstcLdr6x5),
        23 => Some(BasisTextureFormat::AstcLdr6x6),
        24 => Some(BasisTextureFormat::AstcLdr8x5),
        25 => Some(BasisTextureFormat::AstcLdr8x6),
        26 => Some(BasisTextureFormat::AstcLdr10x5),
        27 => Some(BasisTextureFormat::AstcLdr10x6),
        28 => Some(BasisTextureFormat::AstcLdr8x8),
        29 => Some(BasisTextureFormat::AstcLdr10x8),
        30 => Some(BasisTextureFormat::AstcLdr10x10),
        31 => Some(BasisTextureFormat::AstcLdr12x10),
        32 => Some(BasisTextureFormat::AstcLdr12x12),
        33 => Some(BasisTextureFormat::Xubc7),
        _ => None,
    }
}

impl BasisTextureFormat {
    /// The C API's number for `self`.
    pub fn to_u32(&self) -> (r: u32)
        ensures
            r == basis_format_code(*self),
    {
        match *self {
            BasisTextureFormat::Etc1s => 0,
            BasisTextureFormat::UastcLdr4x4 => 1,
            BasisTextureFormat::UastcHdr4x4 => 2,
            BasisTextureFormat::AstcHdr6x6 => 3,
            BasisTextureFormat::UastcHdr6x6 => 4,
            BasisTextureFormat::XuastcLdr4x4 => 5,
            BasisTextureFormat::XuastcLdr5x4 => 6,
            BasisTextureFormat::XuastcLdr5x5 => 7,
            BasisTextureFormat::XuastcLdr6x5 => 8,
            BasisTextureFormat::XuastcLdr6x6 => 9,
            BasisTextureFormat::XuastcLdr8x5 => 10,
            BasisTextureFormat::XuastcLdr8x6 => 11,
            BasisTextureFormat::XuastcLdr10x5 => 12,
            BasisTextureFormat::XuastcLdr10x6 => 13,
            BasisTextureFormat::XuastcLdr8x8 => 14,
            BasisTextureFormat::XuastcLdr10x8 => 15,
            BasisTextureFormat::XuastcLdr10x10 => 16,
            BasisTextureFormat::XuastcLdr12x10 => 17,
            BasisTextureFormat::XuastcLdr12x12 => 18,
            BasisTextureFormat::AstcLdr4x4 => 19,
            BasisTextureFormat::AstcLdr5x4 => 20,
            BasisTextureFormat::AstcLdr5x5 => 21,
            BasisTextureFormat::AstcLdr6x5 => 22,
            BasisTextureFormat::AstcLdr6x6 => 23,
            BasisTextureFormat::AstcLdr8x5 => 24,
            BasisTextureFormat::AstcLdr8x6 => 25,
            BasisTextureFormat::AstcLdr10x5 => 26,
            BasisTextureFormat::AstcLdr10x6 => 27,
            BasisTextureFormat::AstcLdr8x8 => 28,
            BasisTextureFormat::AstcLdr10x8 => 29,
            BasisTextureFormat::AstcLdr10x10 => 30,
            BasisTextureFormat::AstcLdr12x10 => 31,
            BasisTextureFormat::AstcLdr12x12 => 32,
            BasisTextureFormat::Xubc7 => 33,
        }
    }
}

impl TryFrom<u32> for BasisTextureFormat {
    type Error = ();

    fn try_from(value: u32) -> (r: Result<Self, Self::Error>) {
        match value {
            0 => Ok(BasisTextureFormat::Etc1s),
            1 => Ok(BasisTextureFormat::UastcLdr4x4),
            2 => Ok(BasisTextureFormat::UastcHdr4x4),
            3 => Ok(BasisTextureFormat::AstcHdr6x6),
            4 => Ok(BasisTextureFormat::UastcHdr6x6),
            5 => Ok(BasisTextureFormat::XuastcLdr4x4),
            6 => Ok(BasisTextureFormat::XuastcLdr5x4),
            7 => Ok(BasisTextureFormat::XuastcLdr5x5),
            8 => Ok(BasisTextureFormat::XuastcLdr6x5),
            9 => Ok(BasisTextureFormat::XuastcLdr6x6),
            10 => Ok(BasisTextureFormat::XuastcLdr8x5),
            11 => Ok(BasisTextureFormat::XuastcLdr8x6),
            12 => Ok(BasisTextureFormat::XuastcLdr10x5),
            13 => Ok(BasisTextureFormat::XuastcLdr10x6),
            14 => Ok(BasisTextureFormat::XuastcLdr8x8),
            15 => Ok(BasisTextureFormat::XuastcLdr10x8),
            16 => Ok(BasisTextureFormat::XuastcLdr10x10),
            17 => Ok(BasisTextureFormat::XuastcLdr12x10),
            18 => Ok(BasisTextureFormat::XuastcLdr12x12),
            19 => Ok(BasisTextureFormat::AstcLdr4x4),
            20 => Ok(BasisTextureFormat::AstcLdr5x4),
            21 => Ok(BasisTextureFormat::AstcLdr5x5),
            22 => Ok(BasisTextureFormat::AstcLdr6x5),
            23 => Ok(BasisTextureFormat::AstcLdr6x6),
            24 => Ok(BasisTextureFormat::AstcLdr8x5),
            25 => Ok(BasisTextureFormat::AstcLdr8x6),
            26 => Ok(BasisTextureFormat::AstcLdr10x5),
            27 => Ok(BasisTextureFormat::AstcLdr10x6),
            28 => Ok(BasisTextureFormat::AstcLdr8x8),
            29 => Ok(BasisTextureFormat::AstcLdr10x8),
            30 => Ok(BasisTextureFormat::AstcLdr10x10),
            31 => Ok(BasisTextureFormat::AstcLdr12x10),
            32 => Ok(BasisTextureFormat::AstcLdr12x12),
            33 => Ok(BasisTextureFormat::Xubc7),
            _ => Err(()),
        }
    }
}

impl vstd::std_specs::convert::TryFromSpecImpl<u32> for BasisTextureFormat {
    open spec fn obeys_try_from_spec() -> bool {
        true
    }

    open spec fn try_from_spec(v: u32) -> Result<Self, ()> {
        match basis_format_of_code(v) {
            Some(f) => Ok(f),
            None => Err(()),
        }
    }
}

/// An enum that wraps the `TF_*` transcode target formats of the C API.
///
/// The variants are numbered from 0 in the order in which they are declared:
/// that is the numbering of the C API, and the value that [`TranscodeTargetFormat::to_u32`] gives.
#[derive(Debug, Clone, Copy, PartialEq, Eq, Hash, Structural)]
pub enum TranscodeTargetFormat {
    /// ETC1 RGB. Decoded as `TextureFormat::Etc2Rgb8Unorm`.
    Etc1Rgb,
    /// ETC2 RGBA.
    Etc2Rgba,
    /// BC1 (DXT1) RGB.
    Bc1Rgb,
    /// BC3 (DXT5) RGBA.
    Bc3Rgba,
    /// BC4 single-channel.
    Bc4R,
    /// BC5 dual-channel.
    Bc5Rg,
    /// BC7 RGBA.
    Bc7Rgba,
    /// PVRTC1 4bpp RGB. Not supported by wgpu.
    Pvrtc1_4Rgb,
    /// PVRTC1 4bpp RGBA. Not supported by wgpu.
    Pvrtc1_4Rgba,
    /// ASTC LDR 4x4 RGBA.
    AstcLdr4x4Rgba,
    /// ATC RGB. Not supported by wgpu.
    AtcRgb,
    /// ATC RGBA. Not supported by wgpu.
    AtcRgba,
    /// FXT1 RGB. Not supported by wgpu.
    Fxt1Rgb,
    /// PVRTC2 4bpp RGB. Not supported by wgpu.
    Pvrtc2_4Rgb,
    /// PVRTC2 4bpp RGBA. Not supported by wgpu.
    Pvrtc2_4Rgba,
    /// ETC2 EAC single-channel (R11).
    Etc2EacR11,
    /// ETC2 EAC dual-channel (RG11).
    Etc2EacRg11,
    /// BC6H RGB half-float (HDR).
    Bc6H,
    /// ASTC HDR 4x4 RGBA.
    AstcHdr4x4Rgba,
    /// Uncompressed 8-bit RGBA.
    RGBA32,
    /// Uncompressed 16-bit RGB565.
    RGB565,
    /// Uncompressed 16-bit BGR565.
    BGR565,
    /// Uncompressed 16-bit RGBA4444.
    RGBA4444,
    /// Uncompressed 16-bit half-float RGB.
    RgbHalf,
    /// Uncompressed 16-bit half-float RGBA.
    RgbaHalf,
    /// Uncompressed shared-exponent 9/9/9/5-bit RGB.
    Rgb9e5,
    /// ASTC HDR 6x6 RGBA.
    AstcHdr6x6Rgba,
    /// ASTC LDR 5x4 RGBA.
    AstcLdr5x4Rgba,
    /// ASTC LDR 5x5 RGBA.
    AstcLdr5x5Rgba,
    /// ASTC LDR 6x5 RGBA.
    AstcLdr6x5Rgba,
    /// ASTC LDR 6x6 RGBA.
    AstcLdr6x6Rgba,
    /// ASTC LDR 8x5 RGBA.
    AstcLdr8x5Rgba,
    /// ASTC LDR 8x6 RGBA.
    AstcLdr8x6Rgba,
    /// ASTC LDR 10x5 RGBA.
    AstcLdr10x5Rgba,
    /// ASTC LDR 10x6 RGBA.
    AstcLdr10x6Rgba,
    /// ASTC LDR 8x8 RGBA.
    AstcLdr8x8Rgba,
    /// ASTC LDR 10x8 RGBA.
    AstcLdr10x8Rgba,
    /// ASTC LDR 10x10 RGBA.
    AstcLdr10x10Rgba,
    /// ASTC LDR 12x10 RGBA.
    AstcLdr12x10Rgba,
    /// ASTC LDR 12x12 RGBA.
    AstcLdr12x12Rgba,
}

/// The number of [`TranscodeTargetFormat`] values in the C API.
pub const TF_TOTAL_TEXTURE_FORMATS: u32 = 40;

/// The C API's number for `f`.
pub open spec fn transcode_target_code(f: TranscodeTargetFormat) -> u32 {
    match f {
        TranscodeTargetFormat::Etc1Rgb => 0,
        TranscodeTargetFormat::Etc2Rgba => 1,
        TranscodeTargetFormat::Bc1Rgb => 2,
        TranscodeTargetFormat::Bc3Rgba => 3,
        TranscodeTargetFormat::Bc4R => 4,
        TranscodeTargetFormat::Bc5Rg => 5,
        TranscodeTargetFormat::Bc7Rgba => 6,
        TranscodeTargetFormat::Pvrtc1_4Rgb => 7,
        TranscodeTargetFormat::Pvrtc1_4Rgba => 8,
        TranscodeTargetFormat::AstcLdr4x4Rgba => 9,
        TranscodeTargetFormat::AtcRgb => 10,
        TranscodeTargetFormat::AtcRgba => 11,
        TranscodeTargetFormat::Fxt1Rgb => 12,
        TranscodeTargetFormat::Pvrtc2_4Rgb => 13,
        TranscodeTargetFormat::Pvrtc2_4Rgba => 14,
        TranscodeTargetFormat::Etc2EacR11 => 15,
        TranscodeTargetFormat::Etc2EacRg11 => 16,
        TranscodeTargetFormat::Bc6H => 17,
        TranscodeTargetFormat::AstcHdr4x4Rgba => 18,
        TranscodeTargetFormat::RGBA32 => 19,
        TranscodeTargetFormat::RGB565 => 20,
        TranscodeTargetFormat::BGR565 => 21,
        TranscodeTargetFormat::RGBA4444 => 22,
        TranscodeTargetFormat::RgbHalf => 23,
        TranscodeTargetFormat::RgbaHalf => 24,
        TranscodeTargetFormat::Rgb9e5 => 25,
        TranscodeTargetFormat::AstcHdr6x6Rgba => 26,
        TranscodeTargetFormat::AstcLdr5x4Rgba => 27,
        TranscodeTargetFormat::AstcLdr5x5Rgba => 28,
        TranscodeTargetFormat::AstcLdr6x5Rgba => 29,
        TranscodeTargetFormat::AstcLdr6x6Rgba => 30,
        TranscodeTargetFormat::AstcLdr8x5Rgba => 31,
        TranscodeTargetFormat::AstcLdr8x6Rgba => 32,
        TranscodeTargetFormat::AstcLdr10x5Rgba => 33,
        TranscodeTargetFormat::AstcLdr10x6Rgba => 34,
        TranscodeTargetFormat::AstcLdr8x8Rgba => 35,
        TranscodeTargetFormat::AstcLdr10x8Rgba => 36,
        TranscodeTargetFormat::AstcLdr10x10Rgba => 37,
        TranscodeTargetFormat::AstcLdr12x10Rgba => 38,
        TranscodeTargetFormat::AstcLdr12x12Rgba => 39,
    }
}

/// The value that the C API's number `v` stands for, if any.
pub open spec fn transcode_target_of_code(v: u32) -> Option<TranscodeTargetFormat> {
    match v {
        0 => Some(TranscodeTargetFormat::Etc1Rgb),
        1 => Some(TranscodeTargetFormat::Etc2Rgba),
        2 => Some(TranscodeTargetFormat::Bc1Rgb),
        3 => Some(TranscodeTargetFormat::Bc3Rgba),
        4 => Some(TranscodeTargetFormat::Bc4R),
        5 => Some(TranscodeTargetFormat::Bc5Rg),
        6 => Some(TranscodeTargetFormat::Bc7Rgba),
        7 => Some(TranscodeTargetFormat::Pvrtc1_4Rgb),
        8 => Some(TranscodeTargetFormat::Pvrtc1_4Rgba),
        9 => Some(TranscodeTargetFormat::AstcLdr4x4Rgba),
        10 => Some(TranscodeTargetFormat::AtcRgb),
        11 => Some(TranscodeTargetFormat::AtcRgba),
        12 => Some(TranscodeTargetFormat::Fxt1Rgb),
        13 => Some(TranscodeTargetFormat::Pvrtc2_4Rgb),
        14 => Some(TranscodeTargetFormat::Pvrtc2_4Rgba),
        15 => Some(TranscodeTargetFormat::Etc2EacR11),
        16 => Some(TranscodeTargetFormat::Etc2EacRg11),
        17 => Some(TranscodeTargetFormat::Bc6H),
        18 => Some(TranscodeTargetFormat::AstcHdr4x4Rgba),
        19 => Some(TranscodeTargetFormat::RGBA32),
        20 => Some(TranscodeTargetFormat::RGB565),
        21 => Some(TranscodeTargetFormat::BGR565),
        22 => Some(TranscodeTargetFormat::RGBA4444),
        23 => Some(TranscodeTargetFormat::RgbHalf),
        24 => Some(TranscodeTargetFormat::RgbaHalf),
        25 => Some(TranscodeTargetFormat::Rgb9e5),
        26 => Some(TranscodeTargetFormat::AstcHdr6x6Rgba),
        27 => Some(TranscodeTargetFormat::AstcLdr5x4Rgba),
        28 => Some(TranscodeTargetFormat::AstcLdr5x5Rgba),
        29 => Some(TranscodeTargetFormat::AstcLdr6x5Rgba),
        30 => Some(TranscodeTargetFormat::AstcLdr6x6Rgba),
        31 => Some(TranscodeTargetFormat::AstcLdr8x5Rgba),
        32 => Some(TranscodeTargetFormat::AstcLdr8x6Rgba),
        33 => Some(TranscodeTargetFormat::AstcLdr10x5Rgba),
        34 => Some(TranscodeTargetFormat::AstcLdr10x6Rgba),
        35 => Some(TranscodeTargetFormat::AstcLdr8x8Rgba),
        36 => Some(TranscodeTargetFormat::AstcLdr10x8Rgba),
        37 => Some(TranscodeTargetFormat::AstcLdr10x10Rgba),
        38 => Some(TranscodeTargetFormat::AstcLdr12x10Rgba),
        39 => Some(TranscodeTargetFormat::AstcLdr12x12Rgba),
        _ => None,
    }
}

impl TranscodeTargetFormat {
    /// The C API's number for `self`.
    pub fn to_u32(&self) -> (r: u32)
        ensures
            r == transcode_target_code(*self),
    {
        match *self {
            TranscodeTargetFormat::Etc1Rgb => 0,
            TranscodeTargetFormat::Etc2Rgba => 1,
            TranscodeTargetFormat::Bc1Rgb => 2,
            TranscodeTargetFormat::Bc3Rgba => 3,
            TranscodeTargetFormat::Bc4R => 4,
            TranscodeTargetFormat::Bc5Rg => 5,
            TranscodeTargetFormat::Bc7Rgba => 6,
            TranscodeTargetFormat::Pvrtc1_4Rgb => 7,
            TranscodeTargetFormat::Pvrtc1_4Rgba => 8,
            TranscodeTargetFormat::AstcLdr4x4Rgba => 9,
            TranscodeTargetFormat::AtcRgb => 10,
            TranscodeTargetFormat::AtcRgba => 11,
            TranscodeTargetFormat::Fxt1Rgb => 12,
            TranscodeTargetFormat::Pvrtc2_4Rgb => 13,
            TranscodeTargetFormat::Pvrtc2_4Rgba => 14,
            TranscodeTargetFormat::Etc2EacR11 => 15,
            TranscodeTargetFormat::Etc2EacRg11 => 16,
            TranscodeTargetFormat::Bc6H => 17,
            TranscodeTargetFormat::AstcHdr4x4Rgba => 18,
            TranscodeTargetFormat::RGBA32 => 19,
            TranscodeTargetFormat::RGB565 => 20,
            TranscodeTargetFormat::BGR565 => 21,
            TranscodeTargetFormat::RGBA4444 => 22,
            TranscodeTargetFormat::RgbHalf => 23,
            TranscodeTargetFormat::RgbaHalf => 24,
            TranscodeTargetFormat::Rgb9e5 => 25,
            TranscodeTargetFormat::AstcHdr6x6Rgba => 26,
            TranscodeTargetFormat::AstcLdr5x4Rgba => 27,
            TranscodeTargetFormat::AstcLdr5x5Rgba => 28,
            TranscodeTargetFormat::AstcLdr6x5Rgba => 29,
            TranscodeTargetFormat::AstcLdr6x6Rgba => 30,
            TranscodeTargetFormat::AstcLdr8x5Rgba => 31,
            TranscodeTargetFormat::AstcLdr8x6Rgba => 32,
            TranscodeTargetFormat::AstcLdr10x5Rgba => 33,
            TranscodeTargetFormat::AstcLdr10x6Rgba => 34,
            TranscodeTargetFormat::AstcLdr8x8Rgba => 35,
            TranscodeTargetFormat::AstcLdr10x8Rgba => 36,
            TranscodeTargetFormat::AstcLdr10x10Rgba => 37,
            TranscodeTargetFormat::AstcLdr12x10Rgba => 38,
            TranscodeTargetFormat::AstcLdr12x12Rgba => 39,
        }
    }
}

impl TryFrom<u32> for TranscodeTargetFormat {
    type Error = ();

    fn try_from(value: u32) -> (r: Result<Self, Self::Error>) {
        match value {
            0 => Ok(TranscodeTargetFormat::Etc1Rgb),
            1 => Ok(TranscodeTargetFormat::Etc2Rgba),
            2 => Ok(TranscodeTargetFormat::Bc1Rgb),
            3 => Ok(TranscodeTargetFormat::Bc3Rgba),
            4 => Ok(TranscodeTargetFormat::Bc4R),
            5 => Ok(TranscodeTargetFormat::Bc5Rg),
            6 => Ok(TranscodeTargetFormat::Bc7Rgba),
            7 => Ok(TranscodeTargetFormat::Pvrtc1_4Rgb),
            8 => Ok(TranscodeTargetFormat::Pvrtc1_4Rgba),
            9 => Ok(TranscodeTargetFormat::AstcLdr4x4Rgba),
            10 => Ok(TranscodeTargetFormat::AtcRgb),
            11 => Ok(TranscodeTargetFormat::AtcRgba),
            12 => Ok(TranscodeTargetFormat::Fxt1Rgb),
            13 => Ok(TranscodeTargetFormat::Pvrtc2_4Rgb),
            14 => Ok(TranscodeTargetFormat::Pvrtc2_4Rgba),
            15 => Ok(TranscodeTargetFormat::Etc2EacR11),
            16 => Ok(TranscodeTargetFormat::Etc2EacRg11),
            17 => Ok(TranscodeTargetFormat::Bc6H),
            18 => Ok(TranscodeTargetFormat::AstcHdr4x4Rgba),
            19 => Ok(TranscodeTargetFormat::RGBA32),
            20 => Ok(TranscodeTargetFormat::RGB565),
            21 => Ok(TranscodeTargetFormat::BGR565),
            22 => Ok(TranscodeTargetFormat::RGBA4444),
            23 => Ok(TranscodeTargetFormat::RgbHalf),
            24 => Ok(TranscodeTargetFormat::RgbaHalf),
            25 => Ok(TranscodeTargetFormat::Rgb9e5),
            26 => Ok(TranscodeTargetFormat::AstcHdr6x6Rgba),
            27 => Ok(TranscodeTargetFormat::AstcLdr5x4Rgba),
            28 => Ok(TranscodeTargetFormat::AstcLdr5x5Rgba),
            29 => Ok(TranscodeTargetFormat::AstcLdr6x5Rgba),
            30 => Ok(TranscodeTargetFormat::AstcLdr6x6Rgba),
            31 => Ok(TranscodeTargetFormat::AstcLdr8x5Rgba),
            32 => Ok(TranscodeTargetFormat::AstcLdr8x6Rgba),
            33 => Ok(TranscodeTargetFormat::AstcLdr10x5Rgba),
            34 => Ok(TranscodeTargetFormat::AstcLdr10x6Rgba),
            35 => Ok(TranscodeTargetFormat::AstcLdr8x8Rgba),
            36 => Ok(TranscodeTargetFormat::AstcLdr10x8Rgba),
            37 => Ok(TranscodeTargetFormat::AstcLdr10x10Rgba),
            38 => Ok(TranscodeTargetFormat::AstcLdr12x10Rgba),
            39 => Ok(TranscodeTargetFormat::AstcLdr12x12Rgba),
            _ => Err(()),
        }
    }
}

impl vstd::std_specs::convert::TryFromSpecImpl<u32> for TranscodeTargetFormat {
    open spec fn obeys_try_from_spec() -> bool {
        true
    }

    open spec fn try_from_spec(v: u32) -> Result<Self, ()> {
        match transcode_target_of_code(v) {
            Some(f) => Ok(f),
            None => Err(()),
        }
    }
}

/// Reading back the number of a basis texture format gives that format, and
/// a number reads as a format exactly when it is below the format count.
pub proof fn lemma_basis_format_code_round_trip(f: BasisTextureFormat, v: u32)
    ensures
        basis_format_of_code(basis_format_code(f)) == Some(f),
        basis_format_code(f) < BTF_TOTAL_FORMATS,
        basis_format_of_code(v) is Some <==> v < BTF_TOTAL_FORMATS,
        basis_format_of_code(v) matches Some(g) ==> basis_format_code(g) == v,
{
}

/// Reading back the number of a transcode target gives that target, and a
/// number reads as a target exactly when it is below the target count.
pub proof fn lemma_transcode_target_code_round_trip(f: TranscodeTargetFormat, v: u32)
    ensures
        transcode_target_of_code(transcode_target_code(f)) == Some(f),
        transcode_target_code(f) < TF_TOTAL_TEXTURE_FORMATS,
        transcode_target_of_code(v) is Some <==> v < TF_TOTAL_TEXTURE_FORMATS,
        transcode_target_of_code(v) matches Some(g) ==> transcode_target_code(g) == v,
{
}

/// A C `wasm_bool_t`: zero is false, anything else is true.
#[derive(Debug, Copy, Clone, PartialEq, Eq, Structural)]
pub struct Bool32(pub u32);

impl Bool32 {
    /// Return `true` when the C `wasm_bool_t` is non-zero.
    pub fn is_ok(&self) -> (r: bool)
        ensures
            r == (self.0 != 0),
    {
        self.0 != 0
    }

    /// Return `true` when the C `wasm_bool_t` is zero.
    pub fn is_err(&self) -> (r: bool)
        ensures
            r == (self.0 == 0),
    {
        !self.is_ok()
    }
}

} // verus!
