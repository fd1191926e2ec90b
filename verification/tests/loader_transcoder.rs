use basisu_c_sys::formats::{BasisTextureFormat, TranscodeTargetFormat};
use basisu_c_sys::loader_transcoder::{plan_prepared, BasisuTranscodeError, BasisuTranscoder};
use basisu_c_sys::transcoder::{ChannelType, Ktx2Header, SupportedTextureCompression};
use basisu_c_sys::types::TextureViewDimension;

fn header() -> Ktx2Header {
    Ktx2Header {
        width: 8,
        height: 8,
        layers: 0,
        levels: 1,
        faces: 1,
        is_srgb: false,
        basis_format: 2,
        channel_id0: 0,
        channel_id1: 0,
        is_uastc_ldr_4x4: false,
    }
}

#[test]
fn new_has_nothing_prepared() {
    let t = BasisuTranscoder::new();
    assert_eq!(t.get_prepared_info(), None);
    assert_eq!(
        t.prepared_target(Some(TranscodeTargetFormat::RGBA32)).err(),
        Some(BasisuTranscodeError::TranscodingBeforePrepared)
    );
}

#[test]
fn failed_open_and_failed_start() {
    let mut t = BasisuTranscoder::new();
    let s = SupportedTextureCompression::empty();
    assert_eq!(t.prepare(100, 0, None, s, ChannelType::Auto), Err(BasisuTranscodeError::LoadKtx2DataFailed));
    assert_eq!(t.prepare(100, 5, None, s, ChannelType::Auto), Err(BasisuTranscodeError::BtStartTranscodingFailed));
    assert_eq!(t.get_prepared_info(), None);
    assert_eq!(t.take_resources(), (0, 0));
}

#[test]
fn prepare_then_transcode_plan() {
    let mut t = BasisuTranscoder::new();
    let info = t
        .prepare(100, 5, Some(header()), SupportedTextureCompression::bc(), ChannelType::Auto)
        .unwrap();
    assert_eq!(info.basis_format, BasisTextureFormat::UastcHdr4x4);
    assert_eq!(info.preferred_target, TranscodeTargetFormat::Bc6H);
    assert_eq!(t.get_prepared_info(), Some(info));
    let (handle, prepared, target) = t.prepared_target(None).unwrap();
    assert_eq!((handle, prepared, target), (5, info, TranscodeTargetFormat::Bc6H));
    let plan = plan_prepared(&prepared, target, true, None).unwrap();
    assert_eq!(plan.view_dimension, TextureViewDimension::D2);
    assert_eq!(
        plan_prepared(&prepared, TranscodeTargetFormat::Fxt1Rgb, true, None),
        Err(BasisuTranscodeError::UnsupportedTranscodeTarget)
    );
    assert_eq!(t.take_resources(), (100, 5));
    assert_eq!(t.get_prepared_info(), Some(info));
    assert!(t.prepared_target(None).is_err());
}
