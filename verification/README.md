# ffi_bridge

Verified logic behind a set of foreign-function-interface bindings.

- `src/cstr.rs`: length of a NUL-terminated C string, taken over a byte slice.
- `src/fibonacci.rs`: a Fibonacci generator and the first `n` terms of it,
  with and without an overflow check.
- `src/jieba/`: the dictionary files of a jieba segmenter (`from_dir` adjoins
  the standard file names to a directory), the flag of a cut, and the decoding
  of the C-string words a cut returns.
- `src/cpp_runtime.rs`: the C++ runtime library to link for a target triple.
- `app/`: the unverified native side: the C export (all targets but
  WebAssembly), the WebAssembly export (WebAssembly only), the `extern "C"`
  binding to cppjieba, and build-script helpers.

Notes:

- `Jieba::from_dir` adjoins file names as on Unix (always `/`); Windows
  separators and drive prefixes are not interpreted.
- The native `app::jieba::Jieba` handle does not implement `Clone`: a clone
  would copy the raw pointer, and both copies would free it on drop.
