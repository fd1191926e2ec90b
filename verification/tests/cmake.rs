use basisu_c_sys::cmake::cmake_arg_files;

fn strings(v: &[&str]) -> Vec<String> {
    v.iter().map(|s| s.to_string()).collect()
}

#[test]
fn arg_files_filter_split_and_join() {
    let enc_defaults = strings(&["-O3", "-Wno-stringop-overflow", "-sALLOW_MEMORY_GROWTH=1", "-sSTRICT"]);
    let trans_defaults = strings(&["-Os", "-sEXPORTED_FUNCTIONS=x"]);
    let enc_srcs = strings(&["a.cpp", "b.cpp"]);
    let trans_srcs = strings(&["t.cpp"]);
    let files = cmake_arg_files(
        &enc_defaults,
        &trans_defaults,
        &enc_srcs,
        &trans_srcs,
        Some("  -g  -sASSERTIONS=1 "),
    );
    assert_eq!(files.encoder_srcs, "a.cpp\nb.cpp");
    assert_eq!(files.transcoder_srcs, "t.cpp");
    assert_eq!(
        files.encoder_link_flags,
        "-O3\n-sALLOW_MEMORY_GROWTH=1\n-sSTRICT\n-g\n-sASSERTIONS=1"
    );
    assert_eq!(files.transcoder_link_flags, "-Os\n-sEXPORTED_FUNCTIONS=x\n-g\n-sASSERTIONS=1");
    assert_eq!(files.encoder_compile_flags, "-O3\n-sSTRICT\n-g");
    assert_eq!(files.transcoder_compile_flags, "-Os\n-g");
}

#[test]
fn arg_files_without_extra_flags() {
    let files = cmake_arg_files(&strings(&["-s"]), &[], &[], &[], None);
    assert_eq!(files.encoder_link_flags, "-s");
    assert_eq!(files.encoder_compile_flags, "");
    assert_eq!(files.transcoder_link_flags, "");
    assert_eq!(files.encoder_srcs, "");
}
