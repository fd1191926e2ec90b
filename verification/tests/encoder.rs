use basisu_c_sys::encoder::{
    image_bytes_fit, BasisuEncodeError, BasisuEncoder, BasisuEncoderParams, LayerUpload,
    SourceImage, SourceImageFormat, BU_COMP_FLAGS_GEN_MIPS_CLAMP, BU_COMP_FLAGS_KTX2_OUTPUT,
    BU_COMP_FLAGS_KTX2_UASTC_ZSTD, BU_COMP_FLAGS_SRGB, BU_COMP_FLAGS_TEXTURE_TYPE_2D_ARRAY,
    BU_COMP_FLAGS_TEXTURE_TYPE_CUBEMAP_ARRAY, BU_COMP_FLAGS_THREADED,
};
use basisu_c_sys::formats::BasisTextureFormat;
use basisu_c_sys::types::{Extent3d, TextureViewDimension};

fn extent(width: u32, height: u32, depth_or_array_layers: u32) -> Extent3d {
    Extent3d { width, height, depth_or_array_layers }
}

#[test]
fn invalid_image_data() {
    assert_eq!(
        BasisuEncoder::set_image_plan(&SourceImage {
            data: &[1],
            format: SourceImageFormat::Rgba8,
            size: extent(1, 1, 1),
        }),
        Err(BasisuEncodeError::ImageUnmatchedDataAndSize {
            image_size: extent(1, 1, 1),
            expected_len: 4,
            data_len: 1
        })
    );
}

#[test]
fn empty_image_data() {
    assert_eq!(
        BasisuEncoder::set_image_plan(&SourceImage {
            data: &[],
            format: SourceImageFormat::Rgba8,
            size: extent(1, 1, 1),
        }),
        Err(BasisuEncodeError::EmptyImageData)
    );
}

#[test]
fn layers_are_uploaded_one_after_another() {
    let data = vec![0u8; 2 * 3 * 16 * 2];
    let plan = BasisuEncoder::set_image_plan(&SourceImage {
        data: &data,
        format: SourceImageFormat::Rgba32Float,
        size: extent(2, 3, 2),
    })
    .unwrap();
    assert_eq!(
        plan,
        vec![
            LayerUpload { index: 0, offset: 0, width: 2, height: 3, row_pitch: 32 },
            LayerUpload { index: 1, offset: 96, width: 2, height: 3, row_pitch: 32 },
        ]
    );
}

#[test]
fn slice_upload_takes_one_layer() {
    let data = vec![0u8; 4 * 4 * 4];
    let one = SourceImage { data: &data, format: SourceImageFormat::Rgba8, size: extent(4, 4, 1) };
    assert_eq!(
        BasisuEncoder::set_image_slice_plan(5, &one),
        Ok(LayerUpload { index: 5, offset: 0, width: 4, height: 4, row_pitch: 16 })
    );
    let two = SourceImage { data: &data, format: SourceImageFormat::Rgba8, size: extent(4, 2, 2) };
    assert_eq!(
        BasisuEncoder::set_image_slice_plan(0, &two),
        Err(BasisuEncodeError::SetImageSliceOnlyAcceptsOneLayer)
    );
}

#[test]
fn expected_sizes() {
    let data = [0u8; 24];
    let img = SourceImage { data: &data, format: SourceImageFormat::Rgba8, size: extent(3, 1, 2) };
    assert_eq!(img.expected_per_layer_bytes(), 12);
    assert_eq!(img.expected_bytes(), 24);
    assert_eq!(img.validate_image_data(), Ok(()));
    assert_eq!(SourceImageFormat::Rgba32Float.pixel_bytes(), 16);
    assert!(image_bytes_fit(extent(1024, 1024, 6), SourceImageFormat::Rgba8));
    assert!(!image_bytes_fit(extent(65536, 65536, 1), SourceImageFormat::Rgba8));
}

#[test]
fn default_params() {
    let srgb = BasisuEncoderParams::new_with_srgb_defaults(BasisTextureFormat::Etc1s);
    assert_eq!(srgb.quality_level, 75);
    assert_eq!(srgb.effort_level, 2);
    assert_eq!(
        srgb.flags_and_quality,
        BU_COMP_FLAGS_THREADED | BU_COMP_FLAGS_SRGB | BU_COMP_FLAGS_KTX2_OUTPUT | BU_COMP_FLAGS_KTX2_UASTC_ZSTD
    );
    let linear = BasisuEncoderParams::new_with_linear_defaults(BasisTextureFormat::UastcLdr4x4);
    assert_eq!(linear.flags_and_quality & BU_COMP_FLAGS_SRGB, 0);
    assert_eq!(linear.low_level_uastc_rdo_or_dct_quality_bits, 0);
}

#[test]
fn tex_type_replaces_only_its_field() {
    let p = BasisuEncoderParams::new_with_linear_defaults(BasisTextureFormat::Etc1s)
        .with_tex_type(TextureViewDimension::D2Array);
    assert_eq!(p.flags_and_quality & (3 << 25), BU_COMP_FLAGS_TEXTURE_TYPE_2D_ARRAY);
    let q = p.with_tex_type(TextureViewDimension::Cube);
    assert_eq!(q.flags_and_quality & (3 << 25), BU_COMP_FLAGS_TEXTURE_TYPE_CUBEMAP_ARRAY);
    assert_eq!(q.flags_and_quality & !(3 << 25), p.flags_and_quality & !(3 << 25));
    let r = q.with_tex_type(TextureViewDimension::D2);
    assert_eq!(r.flags_and_quality & (3 << 25), 0);
}

#[test]
fn flags_added_and_removed() {
    let p = BasisuEncoderParams::new_with_linear_defaults(BasisTextureFormat::Etc1s);
    let q = p.with_flags(BU_COMP_FLAGS_GEN_MIPS_CLAMP);
    assert_ne!(q.flags_and_quality & BU_COMP_FLAGS_GEN_MIPS_CLAMP, 0);
    assert_eq!(q.with_removed_flags(BU_COMP_FLAGS_GEN_MIPS_CLAMP), p);
}

#[test]
fn encoder_keeps_its_params_handle() {
    assert_eq!(BasisuEncoder::from_params(42).params(), 42);
}
