//! The parts of the libc++ build that are data: the include directories of
//! the vendored libc++, libc++abi and llvm-libc sources, and the libc++
//! sources that the build leaves out, as emscripten's system library build
//! does.
use vstd::prelude::*;

use crate::text::chars_of;

verus! {

/// The include directories, in order: libc++'s own, llvm-libc's (for the
/// shared floating-point bits that `charconv.cpp` needs), then libc++abi's.
pub open spec fn libcxx_includes() -> Seq<Seq<char>> {
    seq![
        "vendored/emscripten/system/lib/libcxx/src"@,
        "vendored/emscripten/system/lib/libcxx/include"@,
        "vendored/emscripten/system/lib/libcxx/src/include"@,
        "vendored/emscripten/system/lib/libcxx/src/include/ryu"@,
        "vendored/emscripten/system/lib/llvm-libc"@,
        "vendored/emscripten/system/lib/libcxxabi/include"@,
        "vendored/emscripten/system/lib/libcxxabi/src"@,
        "vendored/emscripten/system/lib/libcxxabi/src/demangle"@,
    ]
}

/// The names of the libc++ source files that the build leaves out.
pub open spec fn libcxx_excluded() -> Seq<Seq<char>> {
    seq![
        "xlocale_zos.cpp"@,
        "mbsnrtowcs.cpp"@,
        "wcsnrtombs.cpp"@,
        "int128_builtins.cpp"@,
        "libdispatch.cpp"@,
        "locale_win32.cpp"@,
        "thread_win32.cpp"@,
        "support.cpp"@,
        "compiler_rt_shims.cpp"@,
        "time_zone.cpp"@,
        "tzdb.cpp"@,
        "tzdb_list.cpp"@,
    ]
}

/// The include directories of the libc++ build (see [`libcxx_includes`]).
pub fn includes() -> (r: [String; 8])
    ensures
        r@.map_values(|s: String| s@) == libcxx_includes(),
{
    let r = [
        "vendored/emscripten/system/lib/libcxx/src".to_owned(),
        "vendored/emscripten/system/lib/libcxx/include".to_owned(),
        "vendored/emscripten/system/lib/libcxx/src/include".to_owned(),
        "vendored/emscripten/system/lib/libcxx/src/include/ryu".to_owned(),
        "vendored/emscripten/system/lib/llvm-libc".to_owned(),
        "vendored/emscripten/system/lib/libcxxabi/include".to_owned(),
        "vendored/emscripten/system/lib/libcxxabi/src".to_owned(),
        "vendored/emscripten/system/lib/libcxxabi/src/demangle".to_owned(),
    ];
    assert(r@.map_values(|s: String| s@) =~= libcxx_includes());
    r
}

/// Whether the characters `a` and `b` are the same.
fn same_chars(a: &Vec<char>, b: &Vec<char>) -> (r: bool)
    ensures
        r == (a@ == b@),
{
    if a.len() != b.len() {
        return false;
    }
    let mut i: usize = 0;
    while i < a.len()
        invariant
            i <= a@.len(),
            a@.len() == b@.len(),
            forall|k: int| 0 <= k < i ==> a@[k] == b@[k],
        decreases a@.len() - i,
    {
        if a[i] != b[i] {
            return false;
        }
        i = i + 1;
    }
    assert(a@ =~= b@);
    true
}

/// Whether the libc++ source file called `file_name` is built: all are but
/// those that [`libcxx_excluded`] lists.
pub fn is_libcxx_source(file_name: &str) -> (r: bool)
    ensures
        r == !libcxx_excluded().contains(file_name@),
{
    let name = chars_of(file_name);
    let excluded = [
        "xlocale_zos.cpp",
        "mbsnrtowcs.cpp",
        "wcsnrtombs.cpp",
        "int128_builtins.cpp",
        "libdispatch.cpp",
        "locale_win32.cpp",
        "thread_win32.cpp",
        "support.cpp",
        "compiler_rt_shims.cpp",
        "time_zone.cpp",
        "tzdb.cpp",
        "tzdb_list.cpp",
    ];
    let ghost list = libcxx_excluded();
    assert(excluded@.map_values(|s: &str| s@) =~= list);
    let mut i: usize = 0;
    while i < excluded.len()
        invariant
            i <= excluded@.len(),
            excluded@.len() == list.len(),
            list == libcxx_excluded(),
            name@ == file_name@,
            forall|k: int| 0 <= k < list.len() ==> list[k] == #[trigger] excluded@[k]@,
            forall|k: int| 0 <= k < i ==> list[k] != file_name@,
        decreases excluded@.len() - i,
    {
        let other = chars_of(excluded[i]);
        if same_chars(&name, &other) {
            assert(list[i as int] == file_name@);
            assert(list.contains(file_name@));
            return false;
        }
        i = i + 1;
    }
    proof {
        if list.contains(file_name@) {
            let k = choose|k: int| 0 <= k < list.len() && list[k] == file_name@;
            assert(list[k] != file_name@);
        }
    }
    true
}

} // verus!
