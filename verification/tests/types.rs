use basisu_c_sys::types::{default_depth, AstcBlock, AstcChannel, TextureFormat, TextureViewDimension};

#[test]
fn remove_srgb_suffix_maps_srgb_to_linear() {
    assert_eq!(TextureFormat::Rgba8UnormSrgb.remove_srgb_suffix(), TextureFormat::Rgba8Unorm);
    assert_eq!(TextureFormat::Bc7RgbaUnormSrgb.remove_srgb_suffix(), TextureFormat::Bc7RgbaUnorm);
    assert_eq!(
        TextureFormat::Astc { block: AstcBlock::B6x6, channel: AstcChannel::UnormSrgb }
            .remove_srgb_suffix(),
        TextureFormat::Astc { block: AstcBlock::B6x6, channel: AstcChannel::Unorm }
    );
    assert_eq!(TextureFormat::Bc4RUnorm.remove_srgb_suffix(), TextureFormat::Bc4RUnorm);
}

#[test]
fn add_srgb_suffix_maps_linear_to_srgb() {
    assert_eq!(TextureFormat::Etc2Rgba8Unorm.add_srgb_suffix(), TextureFormat::Etc2Rgba8UnormSrgb);
    assert_eq!(
        TextureFormat::Astc { block: AstcBlock::B4x4, channel: AstcChannel::Unorm }.add_srgb_suffix(),
        TextureFormat::Astc { block: AstcBlock::B4x4, channel: AstcChannel::UnormSrgb }
    );
    // Formats without an sRGB variant are kept.
    assert_eq!(TextureFormat::Rgba16Float.add_srgb_suffix(), TextureFormat::Rgba16Float);
    assert_eq!(
        TextureFormat::Astc { block: AstcBlock::B4x4, channel: AstcChannel::Hdr }.add_srgb_suffix(),
        TextureFormat::Astc { block: AstcBlock::B4x4, channel: AstcChannel::Hdr }
    );
}

#[test]
fn srgb_suffix_round_trip() {
    let f = TextureFormat::Bc1RgbaUnorm;
    assert_eq!(f.add_srgb_suffix().remove_srgb_suffix(), f);
    assert_eq!(f.add_srgb_suffix().add_srgb_suffix(), f.add_srgb_suffix());
}

#[test]
fn defaults() {
    assert_eq!(default_depth(), 1);
    assert_eq!(TextureViewDimension::default(), TextureViewDimension::D2);
}
