use basisu_c_sys::formats::{BasisTextureFormat, TranscodeTargetFormat};
use basisu_c_sys::loader::{
    texture_transcode_format_to_wgpu_format, validate_transcode_target_format, BasisuLoader,
    BasisuLoaderSettings, CompressionFeatures, LoadPlan,
};
use basisu_c_sys::transcoder::{ChannelType, SupportedTextureCompression, TranscodeInfo};
use basisu_c_sys::types::{AstcBlock, AstcChannel, Extent3d, TextureFormat, TextureViewDimension};

fn features(astc: bool, astc_hdr: bool, bc: bool, etc2: bool) -> CompressionFeatures {
    CompressionFeatures { astc, astc_hdr, bc, etc2 }
}

fn info(layers: u32, faces: u32) -> TranscodeInfo {
    TranscodeInfo {
        width: 16,
        height: 8,
        levels: 4,
        layers,
        faces,
        is_srgb: false,
        basis_format: BasisTextureFormat::UastcLdr4x4,
        preferred_target: TranscodeTargetFormat::AstcLdr4x4Rgba,
    }
}

#[test]
fn features_become_flags() {
    assert_eq!(BasisuLoader::from_features(features(false, false, false, false)).supported_compressed_formats().bits(), 0);
    assert_eq!(BasisuLoader::from_features(features(true, false, false, false)).supported_compressed_formats().bits(), 4);
    assert_eq!(BasisuLoader::from_features(features(false, true, true, false)).supported_compressed_formats().bits(), 10);
    assert_eq!(BasisuLoader::from_features(features(true, true, true, true)).supported_compressed_formats().bits(), 15);
}

#[test]
fn forced_formats_map_to_targets() {
    let s = SupportedTextureCompression::all();
    assert_eq!(validate_transcode_target_format(None, s), None);
    assert_eq!(
        validate_transcode_target_format(Some(TextureFormat::Bc7RgbaUnormSrgb), s),
        Some(TranscodeTargetFormat::Bc7Rgba)
    );
    assert_eq!(
        validate_transcode_target_format(Some(TextureFormat::EacRg11Unorm), s),
        Some(TranscodeTargetFormat::Etc2EacRg11)
    );
    assert_eq!(
        validate_transcode_target_format(
            Some(TextureFormat::Astc { block: AstcBlock::B6x6, channel: AstcChannel::Hdr }),
            s
        ),
        Some(TranscodeTargetFormat::AstcHdr6x6Rgba)
    );
    // Uncompressed formats need no feature.
    assert_eq!(
        validate_transcode_target_format(Some(TextureFormat::Rgba8UnormSrgb), SupportedTextureCompression::empty()),
        Some(TranscodeTargetFormat::RGBA32)
    );
}

#[test]
fn target_formats_with_srgb() {
    assert_eq!(texture_transcode_format_to_wgpu_format(TranscodeTargetFormat::Bc1Rgb, true), TextureFormat::Bc1RgbaUnormSrgb);
    assert_eq!(texture_transcode_format_to_wgpu_format(TranscodeTargetFormat::Bc1Rgb, false), TextureFormat::Bc1RgbaUnorm);
    assert_eq!(texture_transcode_format_to_wgpu_format(TranscodeTargetFormat::RgbaHalf, true), TextureFormat::Rgba16Float);
}

#[test]
fn load_plan_of_array_with_forced_format() {
    let loader = BasisuLoader::from_features(features(true, false, true, false));
    let settings = BasisuLoaderSettings {
        is_srgb: Some(true),
        channel_type_hint: ChannelType::Auto,
        force_transcode_target: Some(TextureFormat::Bc3RgbaUnorm),
    };
    let plan = loader.load_plan(&info(3, 1), &settings);
    assert_eq!(
        plan,
        LoadPlan {
            target: TranscodeTargetFormat::Bc3Rgba,
            format: TextureFormat::Bc3RgbaUnormSrgb,
            size: Extent3d { width: 16, height: 8, depth_or_array_layers: 3 },
            mip_level_count: 4,
            view_dimension: TextureViewDimension::D2Array,
        }
    );
}

#[test]
fn load_plan_of_cubemap_with_preferred_target() {
    let loader = BasisuLoader::from_features(features(true, false, false, false));
    let plan = loader.load_plan(&info(0, 6), &BasisuLoaderSettings::default());
    assert_eq!(plan.target, TranscodeTargetFormat::AstcLdr4x4Rgba);
    assert_eq!(plan.format, TextureFormat::Astc { block: AstcBlock::B4x4, channel: AstcChannel::Unorm });
    assert_eq!(plan.size.depth_or_array_layers, 6);
    assert_eq!(plan.view_dimension, TextureViewDimension::Cube);
}
