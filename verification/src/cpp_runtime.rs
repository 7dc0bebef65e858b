//! Which C++ runtime library a native C++ dependency needs, by target triple.
use vstd::prelude::*;

verus! {

/// `pat` occurs in `s` as a contiguous run of characters.
pub open spec fn has_substring(s: Seq<char>, pat: Seq<char>) -> bool {
    exists|i: int| 0 <= i && i + pat.len() <= s.len() && #[trigger] s.subrange(i, i + pat.len()) == pat
}

/// Whether `pat` occurs in `s`, by comparing `pat` with the run of `s`
/// at each position in turn.
fn str_contains(s: &str, pat: &str) -> (found: bool)
    ensures
        found == has_substring(s@, pat@),
{
    let n: usize = s.unicode_len();
    let m: usize = pat.unicode_len();
    if m > n {
        return false;
    }
    let mut i: usize = 0;
    while i <= n - m
        invariant
            n == s@.len(),
            m == pat@.len(),
            m <= n,
            i <= n - m + 1,
            forall|k: int| 0 <= k < i ==> #[trigger] s@.subrange(k, k + m) != pat@,
        decreases n - m + 1 - i,
    {
        let mut j: usize = 0;
        let mut matched: bool = true;
        while j < m && matched
            invariant
                n == s@.len(),
                m == pat@.len(),
                i + m <= n,
                j <= m,
                matched ==> forall|t: int| 0 <= t < j ==> s@[i + t] == pat@[t],
                !matched ==> s@[i + j - 1] != pat@[j - 1] && j >= 1,
            decreases m - j + (if matched { 1int } else { 0int }),
        {
            if s.get_char(i + j) != pat.get_char(j) {
                matched = false;
            }
            j = j + 1;
        }
        if matched {
            assert(s@.subrange(i as int, i + m) =~= pat@);
            return true;
        }
        assert(s@.subrange(i as int, i + m)[j - 1] != pat@[j - 1]);
        i = i + 1;
    }
    false
}

/// A C++ runtime library and how it is linked.
#[derive(Debug, Clone, Copy, PartialEq, Eq, Structural)]
pub enum CppRuntime {
    /// LLVM's `libc++`, linked dynamically.
    LibCxx,
    /// GNU's `libstdc++`, linked dynamically.
    LibStdCxx,
    /// GNU's `libstdc++`, linked statically; the caller passes its search path.
    StaticLibStdCxx,
}

/// The runtime for a target triple: `libc++` on Apple and FreeBSD targets,
/// `libstdc++` on GNU, NetBSD and OpenBSD ones, a static `libstdc++` on musl
/// ones, and none known otherwise. The first of these tests that matches
/// decides.
pub open spec fn runtime_for(target: Seq<char>) -> Option<CppRuntime> {
    if has_substring(target, "apple"@) || has_substring(target, "freebsd"@) {
        Some(CppRuntime::LibCxx)
    } else if has_substring(target, "gnu"@) || has_substring(target, "netbsd"@)
        || has_substring(target, "openbsd"@) {
        Some(CppRuntime::LibStdCxx)
    } else if has_substring(target, "musl"@) {
        Some(CppRuntime::StaticLibStdCxx)
    } else {
        None
    }
}

/// The C++ runtime to link for the target triple `target`.
pub fn cpp_runtime(target: &str) -> (runtime: Option<CppRuntime>)
    ensures
        runtime == runtime_for(target@),
{
    if str_contains(target, "apple") || str_contains(target, "freebsd") {
        Some(CppRuntime::LibCxx)
    } else if str_contains(target, "gnu") || str_contains(target, "netbsd") || str_contains(
        target,
        "openbsd",
    ) {
        Some(CppRuntime::LibStdCxx)
    } else if str_contains(target, "musl") {
        Some(CppRuntime::StaticLibStdCxx)
    } else {
        None
    }
}

/// A target triple that names Apple or FreeBSD links `libc++`.
pub proof fn lemma_apple_freebsd_link_libcxx(target: Seq<char>)
    requires
        has_substring(target, "apple"@) || has_substring(target, "freebsd"@),
    ensures
        runtime_for(target) == Some(CppRuntime::LibCxx),
{
}

/// A target triple that names GNU, NetBSD or OpenBSD, and neither Apple nor
/// FreeBSD, links `libstdc++` dynamically.
pub proof fn lemma_gnu_bsd_link_libstdcxx(target: Seq<char>)
    requires
        has_substring(target, "gnu"@) || has_substring(target, "netbsd"@) || has_substring(
            target,
            "openbsd"@,
        ),
        !has_substring(target, "apple"@),
        !has_substring(target, "freebsd"@),
    ensures
        runtime_for(target) == Some(CppRuntime::LibStdCxx),
{
}

/// A target triple that names musl, and none of Apple, FreeBSD, GNU, NetBSD
/// and OpenBSD, links `libstdc++` statically.
pub proof fn lemma_musl_links_static_libstdcxx(target: Seq<char>)
    requires
        has_substring(target, "musl"@),
        !has_substring(target, "apple"@),
        !has_substring(target, "freebsd"@),
        !has_substring(target, "gnu"@),
        !has_substring(target, "netbsd"@),
        !has_substring(target, "openbsd"@),
    ensures
        runtime_for(target) == Some(CppRuntime::StaticLibStdCxx),
{
}

/// A target triple that names none of Apple, FreeBSD, GNU, NetBSD, OpenBSD
/// and musl links no C++ runtime.
pub proof fn lemma_other_targets_link_nothing(target: Seq<char>)
    requires
        !has_substring(target, "apple"@),
        !has_substring(target, "freebsd"@),
        !has_substring(target, "gnu"@),
        !has_substring(target, "netbsd"@),
        !has_substring(target, "openbsd"@),
        !has_substring(target, "musl"@),
    ensures
        runtime_for(target) is None,
{
}

/// A runtime is linked exactly when the triple names one of the six
/// families.
pub proof fn lemma_runtime_iff_known_family(target: Seq<char>)
    ensures
        runtime_for(target) is Some <==> (has_substring(target, "apple"@) || has_substring(
            target,
            "freebsd"@,
        ) || has_substring(target, "gnu"@) || has_substring(target, "netbsd"@) || has_substring(
            target,
            "openbsd"@,
        ) || has_substring(target, "musl"@)),
{
}

/// The line a build script prints to have Cargo link `runtime`.
pub open spec fn directive_for(runtime: CppRuntime) -> Seq<char> {
    match runtime {
        CppRuntime::LibCxx => "cargo:rustc-link-lib=c++"@,
        CppRuntime::LibStdCxx => "cargo:rustc-link-lib=stdc++"@,
        CppRuntime::StaticLibStdCxx => "cargo:rustc-link-lib=static=stdc++"@,
    }
}

impl CppRuntime {
    /// The line a build script prints to have Cargo link this runtime.
    pub fn link_directive(&self) -> (line: &'static str)
        ensures
            line@ == directive_for(*self),
    {
        match self {
            CppRuntime::LibCxx => "cargo:rustc-link-lib=c++",
            CppRuntime::LibStdCxx => "cargo:rustc-link-lib=stdc++",
            CppRuntime::StaticLibStdCxx => "cargo:rustc-link-lib=static=stdc++",
        }
    }
}

} // verus!
