use basisu_c_sys::libcxx::{includes, is_libcxx_source};

#[test]
fn include_directories_in_order() {
    let inc = includes();
    assert_eq!(inc[0], "vendored/emscripten/system/lib/libcxx/src");
    assert_eq!(inc[4], "vendored/emscripten/system/lib/llvm-libc");
    assert_eq!(inc[7], "vendored/emscripten/system/lib/libcxxabi/src/demangle");
}

#[test]
fn excluded_sources() {
    assert!(!is_libcxx_source("tzdb.cpp"));
    assert!(!is_libcxx_source("xlocale_zos.cpp"));
    assert!(is_libcxx_source("string.cpp"));
    assert!(is_libcxx_source("tzdb.cpp.bak"));
}
