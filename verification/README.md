# basisu_c_sys

Texture-format logic, transcode target selection, encoder parameter
handling, the KTX2 loader's planning, the wasm-bindgen binding generator
and the small C runtime helpers of a Basis Universal binding, each stated by
a contract and proved with Verus.

Layout:

- `src/` — the verified library:
  - `types`, `formats`: texture formats and their sRGB variants, the basis
    texture formats and transcode targets with their C API numbers;
  - `transcoder`, `loader_transcoder`, `loader`: target selection for a
    device, the plan and slice layout of a transcode, the loader's plan of
    an image and the state of a transcoder that is prepared per texture;
  - `encoder`, `saver`: source image validation, the slices handed to the
    encoder, encoder parameters and the saver's defaults;
  - `bindgen`, `text`, `cmake`, `libcxx`: the binding generator over the
    `extern "C"` blocks of the C API, the text helpers it rests on, and the
    build's argument files and source lists;
  - `itoa`, `atexit`, `heap`, `once`: `itoa`/`utoa`, the `__cxa_atexit`
    registry, the allocator's block layout and one-time initialization.
- `tests/` — tests of the library on concrete values.
- `app/` — the FFI calls into the C library, the exported C runtime
  symbols, the file-writing build helpers, and the serde and error-message
  forms of the library's types.
