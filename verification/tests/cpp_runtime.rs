use ffi_bridge::cpp_runtime::{cpp_runtime, CppRuntime};

#[test]
fn apple_and_freebsd_use_libcxx() {
    assert_eq!(cpp_runtime("x86_64-apple-darwin"), Some(CppRuntime::LibCxx));
    assert_eq!(cpp_runtime("aarch64-apple-ios"), Some(CppRuntime::LibCxx));
    assert_eq!(cpp_runtime("x86_64-unknown-freebsd"), Some(CppRuntime::LibCxx));
}

#[test]
fn gnu_and_bsds_use_libstdcxx() {
    assert_eq!(cpp_runtime("x86_64-unknown-linux-gnu"), Some(CppRuntime::LibStdCxx));
    assert_eq!(cpp_runtime("x86_64-pc-windows-gnu"), Some(CppRuntime::LibStdCxx));
    assert_eq!(cpp_runtime("x86_64-unknown-netbsd"), Some(CppRuntime::LibStdCxx));
    assert_eq!(cpp_runtime("x86_64-unknown-openbsd"), Some(CppRuntime::LibStdCxx));
}

#[test]
fn musl_links_libstdcxx_statically() {
    assert_eq!(cpp_runtime("x86_64-unknown-linux-musl"), Some(CppRuntime::StaticLibStdCxx));
}

#[test]
fn other_targets_have_no_runtime() {
    assert_eq!(cpp_runtime("wasm32-unknown-unknown"), None);
    assert_eq!(cpp_runtime("x86_64-pc-windows-msvc"), None);
    assert_eq!(cpp_runtime(""), None);
}

#[test]
fn earlier_test_wins() {
    // A made-up triple that names both families: the first test decides.
    assert_eq!(cpp_runtime("apple-gnu-musl"), Some(CppRuntime::LibCxx));
    assert_eq!(cpp_runtime("gnu-musl"), Some(CppRuntime::LibStdCxx));
}

#[test]
fn link_directives() {
    assert_eq!(CppRuntime::LibCxx.link_directive(), "cargo:rustc-link-lib=c++");
    assert_eq!(CppRuntime::LibStdCxx.link_directive(), "cargo:rustc-link-lib=stdc++");
    assert_eq!(
        CppRuntime::StaticLibStdCxx.link_directive(),
        "cargo:rustc-link-lib=static=stdc++"
    );
}

#[test]
fn families_match_only_whole_names() {
    assert_eq!(cpp_runtime("gn"), None);
    assert_eq!(cpp_runtime("mus"), None);
    assert_eq!(cpp_runtime("musl"), Some(CppRuntime::StaticLibStdCxx));
    assert_eq!(cpp_runtime("xgnux"), Some(CppRuntime::LibStdCxx));
    assert_eq!(cpp_runtime("目标-apple"), Some(CppRuntime::LibCxx));
}
