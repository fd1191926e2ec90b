use basisu_c_sys::encoder::BasisuEncoderParams;
use basisu_c_sys::formats::BasisTextureFormat;
use basisu_c_sys::saver::{
    default_encoder_params, processor_extensions, BasisuSaver, BasisuSaverSettings,
};

#[test]
fn processes_all_but_gpu_texture_files() {
    let all = ["png", "ktx2", "jpg", "dds", "ktx", "dds2"];
    assert_eq!(processor_extensions(&all), vec!["png", "jpg", "ktx", "dds2"]);
    assert!(processor_extensions(&[]).is_empty());
}

#[test]
fn default_params_are_srgb_xuastc_4x4() {
    assert_eq!(
        default_encoder_params(),
        BasisuEncoderParams::new_with_srgb_defaults(BasisTextureFormat::XuastcLdr4x4)
    );
}

#[test]
fn settings_params_win_over_defaults() {
    let saver = BasisuSaver { default_encoder_params: default_encoder_params() };
    let linear = BasisuEncoderParams::new_with_linear_defaults(BasisTextureFormat::Etc1s);
    assert_eq!(saver.encoder_params(&BasisuSaverSettings { encoder_params: Some(linear) }), linear);
    assert_eq!(
        saver.encoder_params(&BasisuSaverSettings { encoder_params: None }),
        default_encoder_params()
    );
}
