use basisu_c_sys::formats::{BasisTextureFormat, TranscodeTargetFormat};
use basisu_c_sys::transcoder::{
    channel_id_to_type, check_input_len, select_preferred_transcode_target, slice_offsets,
    transcode_slices, transcode_target_to_wgpu_format, BasisuTranscodeError, BasisuTranscoder,
    ChannelType, Ktx2Header, SupportedTextureCompression, TranscodeInfo,
};
use basisu_c_sys::types::{AstcBlock, AstcChannel, Extent3d, TextureFormat, TextureViewDimension};

fn all() -> SupportedTextureCompression {
    SupportedTextureCompression::all()
}

fn header(faces: u32, layers: u32, basis_format: u32) -> Ktx2Header {
    Ktx2Header {
        width: 64,
        height: 32,
        layers,
        levels: 3,
        faces,
        is_srgb: true,
        basis_format,
        channel_id0: 0,
        channel_id1: 15,
        is_uastc_ldr_4x4: false,
    }
}

#[test]
fn channel_ids_of_etc1s() {
    assert_eq!(channel_id_to_type(false, 0, 15), ChannelType::Rgba);
    assert_eq!(channel_id_to_type(false, 0, 0), ChannelType::Rgb);
    assert_eq!(channel_id_to_type(false, 3, 0), ChannelType::R);
    assert_eq!(channel_id_to_type(false, 3, 4), ChannelType::Rg);
    assert_eq!(channel_id_to_type(false, 9, 9), ChannelType::Rgba);
}

#[test]
fn channel_ids_of_uastc() {
    assert_eq!(channel_id_to_type(true, 0, 0), ChannelType::Rgb);
    assert_eq!(channel_id_to_type(true, 3, 0), ChannelType::Rgba);
    assert_eq!(channel_id_to_type(true, 4, 0), ChannelType::R);
    assert_eq!(channel_id_to_type(true, 5, 0), ChannelType::Rg);
    assert_eq!(channel_id_to_type(true, 6, 0), ChannelType::Rg);
    assert_eq!(channel_id_to_type(true, 7, 0), ChannelType::Rgba);
}

#[test]
fn etc1s_prefers_bc_then_etc2_then_rgba8() {
    let f = BasisTextureFormat::Etc1s;
    assert_eq!(select_preferred_transcode_target(f, ChannelType::Auto, all()), TranscodeTargetFormat::Bc7Rgba);
    assert_eq!(select_preferred_transcode_target(f, ChannelType::R, all()), TranscodeTargetFormat::Bc4R);
    assert_eq!(select_preferred_transcode_target(f, ChannelType::Rg, all()), TranscodeTargetFormat::Bc5Rg);
    let etc2 = SupportedTextureCompression::etc2();
    assert_eq!(select_preferred_transcode_target(f, ChannelType::Rgb, etc2), TranscodeTargetFormat::Etc1Rgb);
    assert_eq!(select_preferred_transcode_target(f, ChannelType::Rg, etc2), TranscodeTargetFormat::Etc2EacRg11);
    assert_eq!(
        select_preferred_transcode_target(f, ChannelType::Auto, SupportedTextureCompression::empty()),
        TranscodeTargetFormat::RGBA32
    );
}

#[test]
fn ldr_prefers_astc_then_bc7_then_etc2() {
    let f = BasisTextureFormat::XuastcLdr6x6;
    assert_eq!(select_preferred_transcode_target(f, ChannelType::Auto, all()), TranscodeTargetFormat::AstcLdr6x6Rgba);
    let bc_etc2 = SupportedTextureCompression::bc().union(SupportedTextureCompression::etc2());
    assert_eq!(select_preferred_transcode_target(f, ChannelType::R, bc_etc2), TranscodeTargetFormat::Bc7Rgba);
    assert_eq!(
        select_preferred_transcode_target(f, ChannelType::R, SupportedTextureCompression::etc2()),
        TranscodeTargetFormat::Etc2EacR11
    );
    assert_eq!(
        select_preferred_transcode_target(BasisTextureFormat::UastcLdr4x4, ChannelType::Auto, all()),
        TranscodeTargetFormat::AstcLdr4x4Rgba
    );
}

#[test]
fn hdr_prefers_astc_then_bc6h_then_half() {
    assert_eq!(
        select_preferred_transcode_target(BasisTextureFormat::UastcHdr4x4, ChannelType::Auto, all()),
        TranscodeTargetFormat::AstcHdr4x4Rgba
    );
    assert_eq!(
        select_preferred_transcode_target(BasisTextureFormat::AstcHdr6x6, ChannelType::Auto, all()),
        TranscodeTargetFormat::AstcHdr6x6Rgba
    );
    assert_eq!(
        select_preferred_transcode_target(BasisTextureFormat::UastcHdr6x6, ChannelType::Auto, SupportedTextureCompression::bc()),
        TranscodeTargetFormat::Bc6H
    );
    assert_eq!(
        select_preferred_transcode_target(BasisTextureFormat::UastcHdr4x4, ChannelType::Auto, SupportedTextureCompression::etc2()),
        TranscodeTargetFormat::RgbaHalf
    );
}

#[test]
fn xubc7_prefers_bc7_then_astc4x4() {
    let f = BasisTextureFormat::Xubc7;
    assert_eq!(select_preferred_transcode_target(f, ChannelType::Auto, all()), TranscodeTargetFormat::Bc7Rgba);
    assert_eq!(
        select_preferred_transcode_target(f, ChannelType::Auto, SupportedTextureCompression::astc_ldr()),
        TranscodeTargetFormat::AstcLdr4x4Rgba
    );
}

#[test]
fn wgpu_formats_of_targets() {
    assert_eq!(transcode_target_to_wgpu_format(TranscodeTargetFormat::Etc1Rgb), Some(TextureFormat::Etc2Rgb8Unorm));
    assert_eq!(transcode_target_to_wgpu_format(TranscodeTargetFormat::Bc6H), Some(TextureFormat::Bc6hRgbUfloat));
    assert_eq!(
        transcode_target_to_wgpu_format(TranscodeTargetFormat::AstcLdr10x8Rgba),
        Some(TextureFormat::Astc { block: AstcBlock::B10x8, channel: AstcChannel::Unorm })
    );
    assert_eq!(transcode_target_to_wgpu_format(TranscodeTargetFormat::Pvrtc1_4Rgb), None);
    assert_eq!(transcode_target_to_wgpu_format(TranscodeTargetFormat::RGB565), None);
}

#[test]
fn compression_flags() {
    let s = SupportedTextureCompression::from_bits_truncate(0xff);
    assert_eq!(s.bits(), 15);
    assert!(s.contains(SupportedTextureCompression::bc()));
    let mut t = SupportedTextureCompression::empty();
    assert!(!t.contains(SupportedTextureCompression::etc2()));
    t.insert(SupportedTextureCompression::etc2());
    assert!(t.contains(SupportedTextureCompression::etc2()));
    assert_eq!(t.bits(), 1);
}

#[test]
fn input_length_checks() {
    assert_eq!(check_input_len(0), Err(BasisuTranscodeError::EmptyInputData));
    assert_eq!(check_input_len(12), Ok(12));
}

#[test]
fn new_reads_header_and_selects_target() {
    let t = BasisuTranscoder::new(7, &header(1, 0, 0), all(), ChannelType::Auto).unwrap();
    assert_eq!(
        t.get_info(),
        TranscodeInfo {
            width: 64,
            height: 32,
            levels: 3,
            layers: 0,
            faces: 1,
            is_srgb: true,
            basis_format: BasisTextureFormat::Etc1s,
            preferred_target: TranscodeTargetFormat::Bc7Rgba,
        }
    );
    assert_eq!(t.ktx2_handle(), 7);
}

#[test]
fn new_refuses_bad_face_count() {
    assert!(matches!(
        BasisuTranscoder::new(7, &header(3, 0, 0), all(), ChannelType::Auto),
        Err(BasisuTranscodeError::InvalidFaceCount(3))
    ));
}

#[test]
fn plan_of_cubemap_array() {
    let t = BasisuTranscoder::new(7, &header(6, 2, 0), all(), ChannelType::Auto).unwrap();
    assert!(t.depth_fits());
    let plan = t.plan_transcode(t.target_for(None), true, None).unwrap();
    assert_eq!(plan.target, TranscodeTargetFormat::Bc7Rgba);
    assert_eq!(plan.format, TextureFormat::Bc7RgbaUnormSrgb);
    assert_eq!(plan.size, Extent3d { width: 64, height: 32, depth_or_array_layers: 12 });
    assert_eq!(plan.total_layers, 2);
    assert_eq!(plan.view_dimension, TextureViewDimension::CubeArray);
    let linear = t.plan_transcode(TranscodeTargetFormat::Bc7Rgba, true, Some(false)).unwrap();
    assert_eq!(linear.format, TextureFormat::Bc7RgbaUnorm);
    assert_eq!(
        t.plan_transcode(TranscodeTargetFormat::Bc7Rgba, false, None),
        Err(BasisuTranscodeError::UnsupportedTranscodeTarget)
    );
    assert_eq!(
        t.plan_transcode(TranscodeTargetFormat::AtcRgb, true, None),
        Err(BasisuTranscodeError::UnsupportedTranscodeTarget)
    );
}

#[test]
fn slices_are_mip_major() {
    let t = BasisuTranscoder::new(7, &header(6, 0, 0), all(), ChannelType::Auto).unwrap();
    let s = t.slices();
    assert_eq!(s.len(), 18);
    assert_eq!(s[0], (0, 0, 0));
    assert_eq!(s[5], (0, 0, 5));
    assert_eq!(s[6], (1, 0, 0));
    assert_eq!(s[17], (2, 0, 5));
    let info = t.get_info();
    assert_eq!(transcode_slices(&info), s);
}

#[test]
fn offsets_are_prefix_sums() {
    let (offsets, total) = slice_offsets(&vec![16, 4, 0, 8]);
    assert_eq!(offsets, vec![0, 16, 20, 20]);
    assert_eq!(total, 28);
}
