use basisu_c_sys::formats::{
    BasisTextureFormat, Bool32, TranscodeTargetFormat, BTF_TOTAL_FORMATS, TF_TOTAL_TEXTURE_FORMATS,
};

#[test]
fn basis_format_from_u32() {
    assert_eq!(BasisTextureFormat::try_from(0), Ok(BasisTextureFormat::Etc1s));
    assert_eq!(BasisTextureFormat::try_from(1), Ok(BasisTextureFormat::UastcLdr4x4));
    assert_eq!(BasisTextureFormat::try_from(BTF_TOTAL_FORMATS - 1), Ok(BasisTextureFormat::Xubc7));
    assert_eq!(BasisTextureFormat::try_from(BTF_TOTAL_FORMATS), Err(()));
    assert_eq!(BasisTextureFormat::try_from(u32::MAX), Err(()));
}

#[test]
fn transcode_target_from_u32() {
    assert_eq!(TranscodeTargetFormat::try_from(0), Ok(TranscodeTargetFormat::Etc1Rgb));
    assert_eq!(TranscodeTargetFormat::try_from(19), Ok(TranscodeTargetFormat::RGBA32));
    assert_eq!(
        TranscodeTargetFormat::try_from(TF_TOTAL_TEXTURE_FORMATS - 1),
        Ok(TranscodeTargetFormat::AstcLdr12x12Rgba)
    );
    assert_eq!(TranscodeTargetFormat::try_from(TF_TOTAL_TEXTURE_FORMATS), Err(()));
}

#[test]
fn codes_round_trip() {
    for v in 0..BTF_TOTAL_FORMATS {
        assert_eq!(BasisTextureFormat::try_from(v).unwrap().to_u32(), v);
    }
    for v in 0..TF_TOTAL_TEXTURE_FORMATS {
        assert_eq!(TranscodeTargetFormat::try_from(v).unwrap().to_u32(), v);
    }
}

#[test]
fn bool32() {
    assert!(Bool32(1).is_ok());
    assert!(Bool32(7).is_ok());
    assert!(!Bool32(0).is_ok());
    assert!(Bool32(0).is_err());
    assert!(!Bool32(2).is_err());
}
