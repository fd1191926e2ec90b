//! The decisions of the asset loader: which compression families a device
//! supports, which target a forced texture format stands for, and the
//! layout of the loaded image.
use vstd::prelude::*;

use crate::formats::TranscodeTargetFormat;
use crate::transcoder::{
    is_astc_ldr_target, ChannelType,
    target_supported_by, total_layers_of, transcode_target_to_wgpu_format,
    view_dimension_of, wgpu_format_of, SupportedTextureCompression, TranscodeInfo, ASTC_HDR_BIT,
    ASTC_LDR_BIT, BC_BIT, ETC2_BIT,
};
use crate::types::{
    is_srgb_pair, lemma_srgb_suffix_follows_pairs, AstcBlock, AstcChannel, Extent3d,
    TextureFormat, TextureViewDimension,
};

verus! {

/// The texture compression features that a WebGPU device reports.
#[derive(Debug, Clone, Copy, PartialEq, Eq, Structural)]
pub struct CompressionFeatures {
    /// `TEXTURE_COMPRESSION_ASTC`.
    pub astc: bool,
    /// `TEXTURE_COMPRESSION_ASTC_HDR`.
    pub astc_hdr: bool,
    /// `TEXTURE_COMPRESSION_BC`.
    pub bc: bool,
    /// `TEXTURE_COMPRESSION_ETC2`.
    pub etc2: bool,
}

/// The compression families of a device with `f`: each feature enables its
/// family.
pub open spec fn supported_of_features(f: CompressionFeatures) -> SupportedTextureCompression {
    SupportedTextureCompression {
        bits: ((if f.astc {
            ASTC_LDR_BIT
        } else {
            0u8
        }) | (if f.astc_hdr {
            ASTC_HDR_BIT
        } else {
            0u8
        }) | (if f.bc {
            BC_BIT
        } else {
            0u8
        }) | (if f.etc2 {
            ETC2_BIT
        } else {
            0u8
        })) as u8,
    }
}

/// The loader of Basis Universal KTX2 textures for one device.
pub struct BasisuLoader {
    supported_compressed_formats: SupportedTextureCompression,
}

/// The settings of loading one texture.
#[derive(Debug, Clone, Copy, PartialEq, Eq, Structural)]
pub struct BasisuLoaderSettings {
    /// Whether the texture is created with an sRGB format; when `None`, the
    /// transfer function of the KTX2 data format descriptor decides.
    pub is_srgb: Option<bool>,
    /// The channel type hint of target selection; with `Auto`, the KTX2 data
    /// format descriptor's channel type decides.
    pub channel_type_hint: ChannelType,
    /// The format to transcode to instead of the selected one; its sRGB
    /// suffix is ignored. The device must support it.
    pub force_transcode_target: Option<TextureFormat>,
}

impl Default for BasisuLoaderSettings {
    fn default() -> (r: Self)
        ensures
            r == (BasisuLoaderSettings {
                is_srgb: None,
                channel_type_hint: ChannelType::Auto,
                force_transcode_target: None,
            }),
    {
        BasisuLoaderSettings { is_srgb: None, channel_type_hint: ChannelType::Auto, force_transcode_target: None }
    }
}

/// What loading a texture produces besides the pixels.
#[derive(Debug, Clone, Copy, PartialEq, Eq, Structural)]
pub struct LoadPlan {
    /// The transcode target.
    pub target: TranscodeTargetFormat,
    /// The format of the image.
    pub format: TextureFormat,
    /// The size of the image: the base level's width and height, and every
    /// layer's faces as its depth.
    pub size: Extent3d,
    /// The mip level count.
    pub mip_level_count: u32,
    /// The view dimension of the image.
    pub view_dimension: TextureViewDimension,
}

/// The transcode target that a forced texture format, without its sRGB
/// suffix, stands for on a device with `s`; `None` for a format that the
/// device cannot sample or that no target produces.
pub open spec fn forced_target_of(f: TextureFormat, s: SupportedTextureCompression) -> Option<
    TranscodeTargetFormat,
> {
    match f {
        TextureFormat::Etc2Rgb8Unorm if s.etc2_supported() => Some(TranscodeTargetFormat::Etc1Rgb),
        TextureFormat::Etc2Rgba8Unorm if s.etc2_supported() => Some(TranscodeTargetFormat::Etc2Rgba),
        TextureFormat::Bc1RgbaUnorm if s.bc_supported() => Some(TranscodeTargetFormat::Bc1Rgb),
        TextureFormat::Bc3RgbaUnorm if s.bc_supported() => Some(TranscodeTargetFormat::Bc3Rgba),
        TextureFormat::Bc4RUnorm if s.bc_supported() => Some(TranscodeTargetFormat::Bc4R),
        TextureFormat::Bc5RgUnorm if s.bc_supported() => Some(TranscodeTargetFormat::Bc5Rg),
        TextureFormat::Bc7RgbaUnorm if s.bc_supported() => Some(TranscodeTargetFormat::Bc7Rgba),
        TextureFormat::Astc {
            block: AstcBlock::B4x4,
            channel: AstcChannel::Unorm,
        } if s.astc_ldr_supported() => Some(TranscodeTargetFormat::AstcLdr4x4Rgba),
        TextureFormat::EacR11Unorm if s.etc2_supported() => Some(TranscodeTargetFormat::Etc2EacR11),
        TextureFormat::EacRg11Unorm if s.etc2_supported() => Some(TranscodeTargetFormat::Etc2EacRg11),
        TextureFormat::Bc6hRgbUfloat if s.bc_supported() => Some(TranscodeTargetFormat::Bc6H),
        TextureFormat::Astc {
            block: AstcBlock::B4x4,
            channel: AstcChannel::Hdr,
        } if s.astc_hdr_supported() => Some(TranscodeTargetFormat::AstcHdr4x4Rgba),
        TextureFormat::Rgba8Unorm => Some(TranscodeTargetFormat::RGBA32),
        TextureFormat::Rgba16Float => Some(TranscodeTargetFormat::RgbaHalf),
        TextureFormat::Rgb9e5Ufloat => Some(TranscodeTargetFormat::Rgb9e5),
        TextureFormat::Astc {
            block: AstcBlock::B6x6,
            channel: AstcChannel::Hdr,
        } if s.astc_hdr_supported() => Some(TranscodeTargetFormat::AstcHdr6x6Rgba),
        _ => None,
    }
}

/// Whether a forced format can be loaded: none is forced, or it stands for a
/// target (see [`forced_target_of`]).
pub open spec fn forced_format_usable(format: Option<TextureFormat>, s: SupportedTextureCompression) -> bool {
    match format {
        None => true,
        Some(f) => forced_target_of(f.without_srgb(), s) is Some,
    }
}

/// The WebGPU format of a transcode target, with the sRGB suffix added when
/// `is_srgb` holds.
pub open spec fn loaded_format_of(t: TranscodeTargetFormat, is_srgb: bool) -> TextureFormat {
    if is_srgb {
        wgpu_format_of(t).unwrap().with_srgb()
    } else {
        wgpu_format_of(t).unwrap()
    }
}

/// The WebGPU format of a transcode target that has one, with the sRGB
/// suffix when `is_srgb` holds (see [`loaded_format_of`]).
pub fn texture_transcode_format_to_wgpu_format(transcoded: TranscodeTargetFormat, is_srgb: bool) -> (r:
    TextureFormat)
    requires
        wgpu_format_of(transcoded) is Some,
    ensures
        r == loaded_format_of(transcoded, is_srgb),
{
    let fmt = match transcode_target_to_wgpu_format(transcoded) {
        Some(f) => f,
        None => TextureFormat::Rgba8Unorm,
    };
    if is_srgb {
        fmt.add_srgb_suffix()
    } else {
        fmt
    }
}

/// The target that the format `f` stands for on a device with
/// `supported_methods` (see [`forced_target_of`]).
pub fn forced_target(f: TextureFormat, supported_methods: SupportedTextureCompression) -> (r: Option<
    TranscodeTargetFormat,
>)
    ensures
        r == forced_target_of(f, supported_methods),
{
    let etc2 = supported_methods.contains(SupportedTextureCompression::etc2());
    let bc = supported_methods.contains(SupportedTextureCompression::bc());
    let astc_ldr = supported_methods.contains(SupportedTextureCompression::astc_ldr());
    let astc_hdr = supported_methods.contains(SupportedTextureCompression::astc_hdr());
    match f {
        TextureFormat::Etc2Rgb8Unorm if etc2 => Some(TranscodeTargetFormat::Etc1Rgb),
        TextureFormat::Etc2Rgba8Unorm if etc2 => Some(TranscodeTargetFormat::Etc2Rgba),
        TextureFormat::Bc1RgbaUnorm if bc => Some(TranscodeTargetFormat::Bc1Rgb),
        TextureFormat::Bc3RgbaUnorm if bc => Some(TranscodeTargetFormat::Bc3Rgba),
        TextureFormat::Bc4RUnorm if bc => Some(TranscodeTargetFormat::Bc4R),
        TextureFormat::Bc5RgUnorm if bc => Some(TranscodeTargetFormat::Bc5Rg),
        TextureFormat::Bc7RgbaUnorm if bc => Some(TranscodeTargetFormat::Bc7Rgba),
        TextureFormat::Astc {
            block: AstcBlock::B4x4,
            channel: AstcChannel::Unorm,
        } if astc_ldr => Some(TranscodeTargetFormat::AstcLdr4x4Rgba),
        TextureFormat::EacR11Unorm if etc2 => Some(TranscodeTargetFormat::Etc2EacR11),
        TextureFormat::EacRg11Unorm if etc2 => Some(TranscodeTargetFormat::Etc2EacRg11),
        TextureFormat::Bc6hRgbUfloat if bc => Some(TranscodeTargetFormat::Bc6H),
        TextureFormat::Astc {
            block: AstcBlock::B4x4,
            channel: AstcChannel::Hdr,
        } if astc_hdr => Some(TranscodeTargetFormat::AstcHdr4x4Rgba),
        TextureFormat::Rgba8Unorm => Some(TranscodeTargetFormat::RGBA32),
        TextureFormat::Rgba16Float => Some(TranscodeTargetFormat::RgbaHalf),
        TextureFormat::Rgb9e5Ufloat => Some(TranscodeTargetFormat::Rgb9e5),
        TextureFormat::Astc {
            block: AstcBlock::B6x6,
            channel: AstcChannel::Hdr,
        } if astc_hdr => Some(TranscodeTargetFormat::AstcHdr6x6Rgba),
        _ => None,
    }
}

/// Whether a forced format can be loaded (see [`forced_format_usable`]).
pub fn forced_target_usable(
    format: Option<TextureFormat>,
    supported_methods: SupportedTextureCompression,
) -> (r: bool)
    ensures
        r == forced_format_usable(format, supported_methods),
{
    match format {
        None => true,
        Some(f) => forced_target(f.remove_srgb_suffix(), supported_methods).is_some(),
    }
}

/// The target that a forced format stands for: `None` when no format is
/// forced, otherwise [`forced_target_of`] of the format without its sRGB
/// suffix, which must name one.
pub fn validate_transcode_target_format(
    format: Option<TextureFormat>,
    supported_methods: SupportedTextureCompression,
) -> (r: Option<TranscodeTargetFormat>)
    requires
        forced_format_usable(format, supported_methods),
    ensures
        r == match format {
            None => None,
            Some(f) => forced_target_of(f.without_srgb(), supported_methods),
        },
{
    match format {
        None => None,
        Some(f) => forced_target(f.remove_srgb_suffix(), supported_methods),
    }
}

/// The plan of loading a texture with `info` (see [`BasisuLoader::load_plan`]).
pub open spec fn load_plan_of(
    info: TranscodeInfo,
    s: SupportedTextureCompression,
    is_srgb: Option<bool>,
    force_transcode_target: Option<TextureFormat>,
) -> LoadPlan {
    let target = match force_transcode_target {
        None => info.preferred_target,
        Some(f) => forced_target_of(f.without_srgb(), s).unwrap(),
    };
    LoadPlan {
        target,
        format: loaded_format_of(
            target,
            match is_srgb {
                Some(b) => b,
                None => info.is_srgb,
            },
        ),
        size: Extent3d {
            width: info.width,
            height: info.height,
            depth_or_array_layers: (total_layers_of(info) * info.faces) as u32,
        },
        mip_level_count: info.levels,
        view_dimension: view_dimension_of(info.layers, info.faces),
    }
}

/// Whether a texture with `info` can be loaded with these settings: it has
/// 1 or 6 faces, its depth fits in a `u32`, the forced format is usable, and
/// the target has a WebGPU format.
pub open spec fn loadable(
    info: TranscodeInfo,
    s: SupportedTextureCompression,
    force_transcode_target: Option<TextureFormat>,
) -> bool {
    &&& info.faces == 1 || info.faces == 6
    &&& total_layers_of(info) * info.faces <= u32::MAX
    &&& forced_format_usable(force_transcode_target, s)
    &&& force_transcode_target is None ==> wgpu_format_of(info.preferred_target) is Some
}

impl BasisuLoader {
    /// The loader for a device with `features`.
    pub fn from_features(features: CompressionFeatures) -> (r: Self)
        ensures
            r.supported() == supported_of_features(features),
    {
        let none = SupportedTextureCompression::empty();
        let astc = if features.astc {
            SupportedTextureCompression::astc_ldr()
        } else {
            none
        };
        let astc_hdr = if features.astc_hdr {
            SupportedTextureCompression::astc_hdr()
        } else {
            none
        };
        let bc = if features.bc {
            SupportedTextureCompression::bc()
        } else {
            none
        };
        let etc2 = if features.etc2 {
            SupportedTextureCompression::etc2()
        } else {
            none
        };
        let mut supported_compressed_formats = SupportedTextureCompression::empty();
        supported_compressed_formats.insert(astc);
        supported_compressed_formats.insert(astc_hdr);
        supported_compressed_formats.insert(bc);
        supported_compressed_formats.insert(etc2);
        proof {
            let (a, h, b, e) = (astc.bits, astc_hdr.bits, bc.bits, etc2.bits);
            assert((((0u8 | a) | h) | b) | e == ((a | h) | b) | e) by (bit_vector);
        }
        BasisuLoader { supported_compressed_formats }
    }

    /// The compression families of the loader's device.
    pub closed spec fn supported(self) -> SupportedTextureCompression {
        self.supported_compressed_formats
    }

    /// The compression families of the loader's device.
    pub fn supported_compressed_formats(&self) -> (r: SupportedTextureCompression)
        ensures
            r == self.supported(),
    {
        self.supported_compressed_formats
    }

    /// The plan of loading a texture with `info` with `settings`: the forced
    /// format's target, or the preferred one when none is forced; its WebGPU
    /// format, sRGB as the settings say or, when they leave it open, as the
    /// texture is; the
    /// base size with every layer's faces as depth; the mip level count; and
    /// the view dimension.
    pub fn load_plan(&self, info: &TranscodeInfo, settings: &BasisuLoaderSettings) -> (r: LoadPlan)
        requires
            loadable(*info, self.supported(), settings.force_transcode_target),
        ensures
            r == load_plan_of(
                *info,
                self.supported(),
                settings.is_srgb,
                settings.force_transcode_target,
            ),
    {
        let is_srgb = settings.is_srgb;
        let force_transcode_target = settings.force_transcode_target;
        let view_dimension = if info.layers == 0 {
            if info.faces == 1 {
                TextureViewDimension::D2
            } else {
                TextureViewDimension::Cube
            }
        } else if info.faces == 1 {
            TextureViewDimension::D2Array
        } else {
            TextureViewDimension::CubeArray
        };
        let total_layers = if info.layers == 0 {
            1
        } else {
            info.layers
        };
        let size = Extent3d {
            width: info.width,
            height: info.height,
            depth_or_array_layers: total_layers * info.faces,
        };
        let target = match validate_transcode_target_format(
            force_transcode_target,
            self.supported_compressed_formats,
        ) {
            Some(t) => t,
            None => info.preferred_target,
        };
        proof {
            if let Some(f) = force_transcode_target {
                lemma_forced_target_has_format(f.without_srgb(), self.supported_compressed_formats);
            }
        }
        let srgb = match is_srgb {
            Some(b) => b,
            None => info.is_srgb,
        };
        let format = texture_transcode_format_to_wgpu_format(target, srgb);
        LoadPlan { target, format, size, mip_level_count: info.levels, view_dimension }
    }
}

/// A forced format's target produces that very format, and the device
/// supports it.
pub proof fn lemma_forced_target_has_format(f: TextureFormat, s: SupportedTextureCompression)
    requires
        forced_target_of(f, s) is Some,
    ensures
        wgpu_format_of(forced_target_of(f, s).unwrap()) == Some(f),
        target_supported_by(forced_target_of(f, s).unwrap(), s),
{
}

/// A forced format is what the texture is loaded as: its own sRGB suffix is
/// ignored, and the loaded format carries the suffix exactly when `is_srgb`
/// (or, when it is `None`, the texture) asks for it.
pub proof fn lemma_forced_format_is_loaded(
    info: TranscodeInfo,
    s: SupportedTextureCompression,
    is_srgb: Option<bool>,
    f: TextureFormat,
)
    requires
        forced_target_of(f.without_srgb(), s) is Some,
    ensures
        load_plan_of(info, s, is_srgb, Some(f)).format == (if (match is_srgb {
            Some(b) => b,
            None => info.is_srgb,
        }) {
            f.without_srgb().with_srgb()
        } else {
            f.without_srgb()
        }),
        load_plan_of(info, s, is_srgb, Some(f)) == load_plan_of(info, s, is_srgb, Some(f.with_srgb())),
{
    lemma_forced_target_has_format(f.without_srgb(), s);
    crate::types::lemma_srgb_suffix_round_trips(f);
}

/// Forcing the WebGPU format of a target that the device supports gives that
/// target back, for every target that has a format, but the ASTC LDR ones
/// with blocks other than 4 by 4, which no forced format stands for.
pub proof fn lemma_forcing_target_format_gives_target(
    t: TranscodeTargetFormat,
    s: SupportedTextureCompression,
)
    requires
        wgpu_format_of(t) is Some,
        target_supported_by(t, s),
        is_astc_ldr_target(t) ==> t == TranscodeTargetFormat::AstcLdr4x4Rgba,
    ensures
        forced_target_of(wgpu_format_of(t).unwrap(), s) == Some(t),
{
}

/// When the settings leave sRGB open, the texture is loaded exactly as if
/// they had asked for the texture's own sRGB flag, whether or not a format
/// is forced.
pub proof fn lemma_open_srgb_follows_texture(
    info: TranscodeInfo,
    s: SupportedTextureCompression,
    force_transcode_target: Option<TextureFormat>,
)
    ensures
        load_plan_of(info, s, None, force_transcode_target) == load_plan_of(
            info,
            s,
            Some(info.is_srgb),
            force_transcode_target,
        ),
{
}

/// The loaded format is the target's WebGPU format, turned into its sRGB
/// variant exactly when sRGB is asked for (by the settings or, when they
/// leave it open, by the texture) and that format has an sRGB variant.
pub proof fn lemma_loaded_format_srgb(
    info: TranscodeInfo,
    s: SupportedTextureCompression,
    is_srgb: Option<bool>,
    force_transcode_target: Option<TextureFormat>,
)
    requires
        loadable(info, s, force_transcode_target),
    ensures
        ({
            let p = load_plan_of(info, s, is_srgb, force_transcode_target);
            let linear = wgpu_format_of(p.target).unwrap();
            let asked = match is_srgb {
                Some(b) => b,
                None => info.is_srgb,
            };
            &&& wgpu_format_of(p.target) is Some
            &&& asked && (exists|h: TextureFormat| is_srgb_pair(linear, h)) ==> is_srgb_pair(
                linear,
                p.format,
            )
            &&& !(asked && (exists|h: TextureFormat| is_srgb_pair(linear, h))) ==> p.format == linear
        }),
{
    if let Some(f) = force_transcode_target {
        lemma_forced_target_has_format(f.without_srgb(), s);
    }
    let p = load_plan_of(info, s, is_srgb, force_transcode_target);
    let linear = wgpu_format_of(p.target).unwrap();
    if exists|h: TextureFormat| is_srgb_pair(linear, h) {
        let h = choose|h: TextureFormat| is_srgb_pair(linear, h);
        lemma_srgb_suffix_follows_pairs(linear, h);
    } else {
        lemma_srgb_suffix_follows_pairs(linear, linear);
    }
}

/// Each device feature enables exactly its own compression family.
pub proof fn lemma_features_enable_families(f: CompressionFeatures)
    ensures
        supported_of_features(f).astc_ldr_supported() == f.astc,
        supported_of_features(f).astc_hdr_supported() == f.astc_hdr,
        supported_of_features(f).bc_supported() == f.bc,
        supported_of_features(f).etc2_supported() == f.etc2,
{
    let a: u8 = if f.astc { 4u8 } else { 0u8 };
    let h: u8 = if f.astc_hdr { 8u8 } else { 0u8 };
    let b: u8 = if f.bc { 2u8 } else { 0u8 };
    let e: u8 = if f.etc2 { 1u8 } else { 0u8 };
    let x: u8 = ((a | h) | b) | e;
    assert(x & 4u8 == 4u8 <==> a == 4u8) by (bit_vector)
        requires
            x == ((a | h) | b) | e,
            a == 0u8 || a == 4u8,
            h == 0u8 || h == 8u8,
            b == 0u8 || b == 2u8,
            e == 0u8 || e == 1u8,
    ;
    assert(x & 8u8 == 8u8 <==> h == 8u8) by (bit_vector)
        requires
            x == ((a | h) | b) | e,
            a == 0u8 || a == 4u8,
            h == 0u8 || h == 8u8,
            b == 0u8 || b == 2u8,
            e == 0u8 || e == 1u8,
    ;
    assert(x & 2u8 == 2u8 <==> b == 2u8) by (bit_vector)
        requires
            x == ((a | h) | b) | e,
            a == 0u8 || a == 4u8,
            h == 0u8 || h == 8u8,
            b == 0u8 || b == 2u8,
            e == 0u8 || e == 1u8,
    ;
    assert(x & 1u8 == 1u8 <==> e == 1u8) by (bit_vector)
        requires
            x == ((a | h) | b) | e,
            a == 0u8 || a == 4u8,
            h == 0u8 || h == 8u8,
            b == 0u8 || b == 2u8,
            e == 0u8 || e == 1u8,
    ;
}

} // verus!
