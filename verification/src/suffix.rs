//! Suffix test on C strings held in byte buffers.
//!
//! A buffer stands for the C string made of its bytes up to, and without, the
//! first NUL byte. A buffer without a NUL byte stands for all of its bytes:
//! the end of the slice is then the terminator.

use vstd::prelude::*;

verus! {

/// Whether the C string held in `buf` stops at `n`: no byte before `n` is
/// NUL, and `n` is the place of a NUL byte or the end of the buffer.
pub open spec fn stops_at(buf: Seq<u8>, n: int) -> bool {
    &&& 0 <= n <= buf.len()
    &&& forall|i: int| 0 <= i < n ==> buf[i] != 0
    &&& n < buf.len() ==> buf[n] == 0
}

/// Length of the C string held in `buf`: the number of bytes before the
/// first NUL byte, or the length of `buf` where it holds no NUL byte.
pub open spec fn c_len(buf: Seq<u8>) -> nat
    decreases buf.len(),
{
    if buf.len() == 0 || buf[0] == 0 {
        0
    } else {
        1 + c_len(buf.skip(1))
    }
}

/// The C string held in `buf`: its bytes before the first NUL byte.
pub open spec fn c_str(buf: Seq<u8>) -> Seq<u8> {
    buf.take(c_len(buf) as int)
}

/// Whether the C string held in `subject` ends with the C string held in
/// `suffix`, byte for byte.
pub open spec fn suffix_matches(subject: Seq<u8>, suffix: Seq<u8>) -> bool {
    c_str(suffix).is_suffix_of(c_str(subject))
}

/// The C string in a buffer stops at exactly one place, its length.
pub proof fn lemma_c_len_unique(buf: Seq<u8>, n: int)
    requires
        stops_at(buf, n),
    ensures
        c_len(buf) == n,
    decreases n,
{
    if n > 0 {
        let rest = buf.skip(1);
        assert forall|i: int| 0 <= i < n - 1 implies rest[i] != 0 by {
            assert(rest[i] == buf[i + 1]);
        }
        lemma_c_len_unique(rest, n - 1);
    }
}

/// The length of the C string in a buffer is a place where it stops.
pub proof fn lemma_c_len_stops(buf: Seq<u8>)
    ensures
        stops_at(buf, c_len(buf) as int),
    decreases buf.len(),
{
    if buf.len() > 0 && buf[0] != 0 {
        let rest = buf.skip(1);
        lemma_c_len_stops(rest);
        assert forall|i: int| 0 <= i < c_len(buf) implies buf[i] != 0 by {
            if i > 0 {
                assert(buf[i] == rest[i - 1]);
            }
        }
    }
}

/// Every C string ends with itself.
pub proof fn lemma_suffix_matches_self(s: Seq<u8>)
    ensures
        suffix_matches(s, s),
{
    let c = c_str(s);
    assert(c.subrange(0, c.len() as int) =~= c);
}

/// Every C string ends with the empty C string.
pub proof fn lemma_empty_suffix_matches(subject: Seq<u8>, suffix: Seq<u8>)
    requires
        c_len(suffix) == 0,
    ensures
        suffix_matches(subject, suffix),
{
    lemma_c_len_stops(subject);
    lemma_c_len_stops(suffix);
}

/// No C string ends with a longer one, whatever the bytes.
pub proof fn lemma_longer_suffix_never_matches(subject: Seq<u8>, suffix: Seq<u8>)
    requires
        c_len(suffix) > c_len(subject),
    ensures
        !suffix_matches(subject, suffix),
{
    lemma_c_len_stops(subject);
    lemma_c_len_stops(suffix);
}

/// A match is exact: the suffix is no longer than the subject, and each of
/// its bytes equals the byte of the subject at the same distance from the end.
pub proof fn lemma_suffix_matches_bytewise(subject: Seq<u8>, suffix: Seq<u8>)
    ensures
        suffix_matches(subject, suffix) <==> (c_len(suffix) <= c_len(subject) && forall|i: int|
            0 <= i < c_len(suffix) ==> suffix[i] == subject[c_len(subject) - c_len(suffix) + i]),
{
    lemma_c_len_stops(subject);
    lemma_c_len_stops(suffix);
    let n = c_len(subject) as int;
    let m = c_len(suffix) as int;
    if m <= n {
        let tail = c_str(subject).subrange(n - m, n);
        if suffix_matches(subject, suffix) {
            assert forall|i: int| 0 <= i < m implies suffix[i] == subject[n - m + i] by {
                assert(c_str(suffix)[i] == tail[i]);
            }
        }
        if forall|i: int| 0 <= i < m ==> suffix[i] == subject[n - m + i] {
            assert(c_str(suffix) =~= tail);
        }
    }
}

/// Length of the C string held in `buf`.
pub fn strlen(buf: &[u8]) -> (n: usize)
    ensures
        n == c_len(buf@),
        stops_at(buf@, n as int),
{
    let mut n: usize = 0;
    while n < buf.len() && buf[n] != 0
        invariant
            n <= buf.len(),
            forall|i: int| 0 <= i < n ==> buf@[i] != 0,
        decreases buf.len() - n,
    {
        n += 1;
    }
    proof {
        lemma_c_len_unique(buf@, n as int);
    }
    n
}

/// Whether the `len` bytes of `a` from `start` on equal the first `len` bytes
/// of `b`.
fn region_equals(a: &[u8], start: usize, b: &[u8], len: usize) -> (same: bool)
    requires
        start + len <= a.len(),
        len <= b.len(),
    ensures
        same == (a@.subrange(start as int, start + len) == b@.take(len as int)),
{
    let mut i: usize = 0;
    while i < len
        invariant
            i <= len,
            start + len <= a.len(),
            len <= b.len(),
            forall|k: int| 0 <= k < i ==> a@[start + k] == b@[k],
        decreases len - i,
    {
        if a[start + i] != b[i] {
            proof {
                let k = i as int;
                assert(a@.subrange(start as int, start + len)[k] != b@.take(len as int)[k]);
            }
            return false;
        }
        i += 1;
    }
    assert(a@.subrange(start as int, start + len) =~= b@.take(len as int));
    true
}

/// Whether the C string held in `s` ends with the C string held in `suffix`.
///
/// The comparison is binary: no case folding, no locale. Bytes behind the
/// first NUL byte of either buffer take no part in it.
pub fn endswith(s: &[u8], suffix: &[u8]) -> (matched: bool)
    ensures
        matched == suffix_matches(s@, suffix@),
        s@ == suffix@ ==> matched,
        c_len(suffix@) == 0 ==> matched,
        c_len(suffix@) > c_len(s@) ==> !matched,
{
    let n = strlen(s);
    let m = strlen(suffix);
    proof {
        lemma_suffix_matches_self(s@);
        if c_len(suffix@) == 0 {
            lemma_empty_suffix_matches(s@, suffix@);
        }
    }
    if m > n {
        false
    } else {
        let matched = region_equals(s, n - m, suffix, m);
        assert(c_str(s@).subrange(n - m, n as int) =~= s@.subrange(n - m, n as int));
        matched
    }
}

} // verus!
