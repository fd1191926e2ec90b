use basisu_c_sys::bindgen::{
    arg_names, gen_binding_funcs, gen_public_funcs, parse_extern_fns, try_parse_extern_fns,
    write_binding_file, BindgenError,
};

// One function per `unsafe extern "C" { }` block, multi-line parameter lists
// with trailing commas, `#[must_use]` on Bool32-returning functions, functions
// without `->`, qualified types.
const SAMPLE: &str = r#"/* automatically generated by rust-bindgen 0.72.1 */

#[repr(transparent)]
#[derive(Debug, Copy, Clone)]
pub struct Bool32(pub u32);
unsafe extern "C" {
    #[must_use]
    pub fn bu_alloc(size: u64) -> Bool32;
}
unsafe extern "C" {
    pub fn bu_comp_params_set_image_rgba32(
        params_ofs: u64,
        image_index: u32,
        img_data_ofs: u64,
    ) -> u32;
}
unsafe extern "C" {
    pub fn bu_init();
}
unsafe extern "C" {
    pub fn bu_get_version() -> u32;
}
unsafe extern "C" {
    pub fn bu_set_quality_level(quality_level: ::core::ffi::c_int);
}
"#;

#[test]
fn parses_all_fns_in_order() {
    let fns = parse_extern_fns(SAMPLE);
    let names: Vec<_> = fns.iter().map(|f| f.name.as_str()).collect();
    assert_eq!(
        names,
        [
            "bu_alloc",
            "bu_comp_params_set_image_rgba32",
            "bu_init",
            "bu_get_version",
            "bu_set_quality_level"
        ]
    );
}

#[test]
fn parses_bool32_return_and_must_use() {
    let fns = parse_extern_fns(SAMPLE);
    let alloc = &fns[0];
    assert_eq!(alloc.attrs, "#[must_use]");
    assert_eq!(alloc.args, "size: u64");
    assert_eq!(alloc.ret.as_deref(), Some("Bool32"));
}

#[test]
fn parses_void_fn() {
    let fns = parse_extern_fns(SAMPLE);
    let init = &fns[2];
    assert_eq!(init.args, "");
    assert_eq!(init.ret, None);
}

#[test]
fn normalizes_multiline_args() {
    let fns = parse_extern_fns(SAMPLE);
    assert_eq!(
        fns[1].args,
        "params_ofs: u64, image_index: u32, img_data_ofs: u64,"
    );
}

#[test]
fn preserves_qualified_types() {
    let fns = parse_extern_fns(SAMPLE);
    assert_eq!(fns[4].args, "quality_level: ::core::ffi::c_int");
}

#[test]
fn arg_names_of_multiline_args() {
    let fns = parse_extern_fns(SAMPLE);
    assert_eq!(
        arg_names(&fns[1].args),
        ["params_ofs", "image_index", "img_data_ofs"]
    );
}

#[test]
fn arg_names_empty() {
    assert!(arg_names("").is_empty());
}

#[test]
fn arg_names_strips_mut_guard() {
    assert_eq!(arg_names("mut x: u32, y: u64"), ["x", "y"]);
    // `mut` is stripped only when white space follows it, never from inside an identifier.
    assert_eq!(arg_names("mutable_thing: u32"), ["mutable_thing"]);
}

#[test]
fn binding_rewrites_bool32_to_u32() {
    let out = gen_binding_funcs(SAMPLE);
    assert_eq!(
        out[0],
        "#[wasm_bindgen(method, js_name = \"_bu_alloc\")] pub fn bu_alloc(this: &Basisu, size: u64) -> u32;"
    );
}

#[test]
fn binding_prepends_this_for_void_and_no_args() {
    let out = gen_binding_funcs(SAMPLE);
    assert_eq!(
        out[2],
        "#[wasm_bindgen(method, js_name = \"_bu_init\")] pub fn bu_init(this: &Basisu);"
    );
}

#[test]
fn binding_keeps_other_returns() {
    let out = gen_binding_funcs(SAMPLE);
    assert_eq!(
        out[3],
        "#[wasm_bindgen(method, js_name = \"_bu_get_version\")] pub fn bu_get_version(this: &Basisu) -> u32;"
    );
}

#[test]
fn binding_drops_original_attrs() {
    let out = gen_binding_funcs(SAMPLE);
    assert!(!out[0].contains("must_use"));
}

#[test]
fn wrapper_wraps_bool32_return() {
    let out = gen_public_funcs(SAMPLE);
    assert_eq!(
        out[0],
        "#[must_use]pub unsafe fn bu_alloc(size: u64) -> Bool32 {\n    BASISU_INSTANCE.with(|inst| {\n        let inst = inst.get().unwrap();\n        Bool32(inst.bu_alloc(size))\n    })\n}"
    );
}

#[test]
fn wrapper_keeps_void_ret_and_calls_plain() {
    let out = gen_public_funcs(SAMPLE);
    let init = &out[2];
    assert!(init.starts_with("pub unsafe fn bu_init() {"));
    assert!(init.contains("inst.bu_init()"));
    assert!(!init.contains("->"));
}

#[test]
fn wrapper_passes_arg_names_in_order() {
    let out = gen_public_funcs(SAMPLE);
    assert!(out[1].contains(
        "inst.bu_comp_params_set_image_rgba32(params_ofs, image_index, img_data_ofs)"
    ));
}

#[test]
fn wrapper_keeps_non_bool32_ret_unwrapped() {
    let out = gen_public_funcs(SAMPLE);
    assert!(out[3].starts_with("pub unsafe fn bu_get_version() -> u32 {"));
    assert!(out[3].contains("inst.bu_get_version()"));
}

#[test]
fn binding_file_assembles_header_and_apis() {
    let apis = gen_binding_funcs(SAMPLE);
    let file = write_binding_file(&apis[..1], &apis[1..2]);
    assert!(file.starts_with("#[wasm_bindgen]\nextern \"C\" {\n"));
    assert!(file.contains("pub type Basisu;"));
    assert!(file.contains("wasm_heap_memory"));
    assert!(file.contains("_bu_alloc"));
    assert!(file.contains("_bu_comp_params_set_image_rgba32"));
    assert!(file.ends_with("}\n"));
}

#[test]
fn parses_no_fns_from_comment_only() {
    assert!(parse_extern_fns("/* nothing here */").is_empty());
}

#[test]
fn non_fn_block_is_refused() {
    assert_eq!(
        try_parse_extern_fns("extern \"C\" {\n    pub static FOO: u32;\n}").err(),
        Some(BindgenError::NotOneFnInBlock)
    );
}

#[test]
fn unterminated_block_is_refused() {
    assert_eq!(
        try_parse_extern_fns("extern \"C\" {\n    pub fn bu_x();\n").err(),
        Some(BindgenError::UnterminatedBlock)
    );
}

#[test]
fn unterminated_params_are_refused() {
    assert_eq!(
        try_parse_extern_fns("extern \"C\" { pub fn bu_x(a: u32; }").err(),
        Some(BindgenError::UnterminatedParams)
    );
}

#[test]
fn return_type_without_semicolon_is_refused() {
    assert_eq!(
        try_parse_extern_fns("extern \"C\" { pub fn bu_x() -> u32 }").err(),
        Some(BindgenError::MissingSemicolon)
    );
}

#[test]
fn binding_file_lists_each_api_indented_once() {
    let enc = vec!["A;".to_string()];
    let trans = vec!["B;".to_string(), "C;".to_string()];
    let file = write_binding_file(&enc, &trans);
    assert_eq!(
        file,
        "#[wasm_bindgen]\nextern \"C\" {\n    #[derive(Debug)]\n    pub type Basisu;\n\n    #[wasm_bindgen(method, getter, js_name = HEAPU8)]\n    pub(crate) fn wasm_heap_memory(this: &Basisu) -> Uint8Array;\n\n    A;\n    B;\n    C;\n}\n"
    );
}

#[test]
fn arg_names_skip_nested_commas() {
    assert_eq!(arg_names("f: fn(u32, u64), g: [u8; 4], _h: u8"), ["f", "g", "_h"]);
}
