//! Length of a NUL-terminated C string.
use vstd::prelude::*;

verus! {

/// Number of bytes of `s` before its first NUL byte (all of `s` when it has none).
pub open spec fn c_str_len(s: Seq<u8>) -> nat
    decreases s.len(),
{
    if s.len() == 0 || s[0] == 0 {
        0
    } else {
        1 + c_str_len(s.drop_first())
    }
}

/// `s` holds a NUL byte, that is, it is a terminated C string.
pub open spec fn is_nul_terminated(s: Seq<u8>) -> bool {
    exists|i: int| 0 <= i < s.len() && s[i] == 0
}

/// When `n` is the position of the first NUL byte of `s`, `c_str_len(s)` is `n`.
pub proof fn lemma_c_str_len_first_nul(s: Seq<u8>, n: int)
    requires
        0 <= n <= s.len(),
        n < s.len() ==> s[n] == 0,
        forall|j: int| 0 <= j < n ==> s[j] != 0,
    ensures
        c_str_len(s) == n,
    decreases n,
{
    if n > 0 {
        let t = s.drop_first();
        assert forall|j: int| 0 <= j < n - 1 implies t[j] != 0 by {
            assert(t[j] == s[j + 1]);
        }
        if n < s.len() {
            assert(t[n - 1] == s[n]);
        }
        lemma_c_str_len_first_nul(t, n - 1);
    }
}

/// The length of a terminated C string is the position of its first NUL:
/// every byte before it is non-zero.
pub proof fn lemma_c_str_len_is_first_nul(s: Seq<u8>)
    requires
        is_nul_terminated(s),
    ensures
        c_str_len(s) < s.len(),
        s[c_str_len(s) as int] == 0,
        forall|j: int| 0 <= j < c_str_len(s) ==> s[j] != 0,
    decreases s.len(),
{
    if s[0] != 0 {
        let t = s.drop_first();
        let i: int = choose|i: int| 0 <= i < s.len() && s[i] == 0;
        assert(t[i - 1] == 0);
        lemma_c_str_len_is_first_nul(t);
        assert forall|j: int| 0 <= j < c_str_len(s) implies s[j] != 0 by {
            if j > 0 {
                assert(s[j] == t[j - 1]);
            }
        }
    }
}

/// The length of a string of non-NUL bytes followed by its terminator is the
/// number of those bytes: the terminator is not counted.
pub proof fn lemma_c_str_len_excludes_terminator(body: Seq<u8>)
    requires
        forall|j: int| 0 <= j < body.len() ==> body[j] != 0,
    ensures
        c_str_len(body.push(0u8)) == body.len(),
{
    let s = body.push(0u8);
    assert forall|j: int| 0 <= j < body.len() implies s[j] != 0 by {
        assert(s[j] == body[j]);
    }
    lemma_c_str_len_first_nul(s, body.len() as int);
}

/// Whatever follows the terminator of a C string does not change its length.
pub proof fn lemma_c_str_len_ignores_tail(s: Seq<u8>, tail: Seq<u8>)
    requires
        is_nul_terminated(s),
    ensures
        c_str_len(s + tail) == c_str_len(s),
{
    lemma_c_str_len_is_first_nul(s);
    let n: int = c_str_len(s) as int;
    let st = s + tail;
    assert(st[n] == s[n]);
    assert forall|j: int| 0 <= j < n implies st[j] != 0 by {
        assert(st[j] == s[j]);
    }
    lemma_c_str_len_first_nul(st, n);
}

/// Counts the bytes of the C string held in `s` up to, and not including, its
/// first NUL byte.
///
/// The string must be terminated (reading past the end is not possible), and
/// its length must fit in the unsigned 32-bit count that is returned.
pub fn strlen_rs(s: &[u8]) -> (len: u32)
    requires
        is_nul_terminated(s@),
        c_str_len(s@) <= u32::MAX,
    ensures
        len == c_str_len(s@),
{
    proof {
        lemma_c_str_len_is_first_nul(s@);
    }
    let mut len: u32 = 0;
    let mut i: usize = 0;
    while s[i] != 0
        invariant
            i == len,
            i <= c_str_len(s@),
            c_str_len(s@) < s@.len(),
            c_str_len(s@) <= u32::MAX,
            s@[c_str_len(s@) as int] == 0,
            forall|j: int| 0 <= j < c_str_len(s@) ==> s@[j] != 0,
        decreases c_str_len(s@) - i,
    {
        len = len + 1;
        i = i + 1;
    }
    proof {
        lemma_c_str_len_first_nul(s@, i as int);
    }
    len
}

} // verus!
