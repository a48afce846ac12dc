//! The freestanding memory routines a bare-metal link needs (`memcpy`,
//! `memmove`, `memset`, `memcmp`, `bcmp`), as byte loops over slices.
//!
//! The exported C symbols, which take raw pointers, are thin shims outside
//! this library; the byte-level behaviour, overlap handling included, is
//! proved here.

use vstd::prelude::*;

verus! {

/// Copies the first `n` bytes of `src` over the first `n` bytes of `dest`.
pub fn memcpy(dest: &mut [u8], src: &[u8], n: usize)
    requires
        n <= old(dest)@.len(),
        n <= src@.len(),
    ensures
        final(dest)@ == src@.take(n as int) + old(dest)@.skip(n as int),
{
    let mut i: usize = 0;
    while i < n
        invariant
            i <= n,
            n <= dest@.len(),
            n <= src@.len(),
            dest@.len() == old(dest)@.len(),
            forall|k: int| 0 <= k < i ==> dest@[k] == src@[k],
            forall|k: int| i <= k < dest@.len() ==> dest@[k] == old(dest)@[k],
        decreases n - i,
    {
        dest[i] = src[i];
        i = i + 1;
    }
    assert(dest@ =~= src@.take(n as int) + old(dest)@.skip(n as int));
}

/// `buf` after moving the `n` bytes at `src` to `dest`, as if through a
/// temporary copy: the destination range holds the old source bytes, every
/// other byte is unchanged.
pub open spec fn moved(buf: Seq<u8>, dest: int, src: int, n: int) -> Seq<u8> {
    Seq::new(buf.len(), |k: int| if dest <= k < dest + n { buf[src + (k - dest)] } else { buf[k] })
}

/// Moves the `n` bytes at offset `src` of `buf` to offset `dest`; the two
/// ranges may overlap.
pub fn memmove(buf: &mut [u8], dest: usize, src: usize, n: usize)
    requires
        dest + n <= old(buf)@.len(),
        src + n <= old(buf)@.len(),
    ensures
        final(buf)@ == moved(old(buf)@, dest as int, src as int, n as int),
{
    let ghost start = buf@;
    let len = buf.len();
    assert(start.len() == len);
    if dest <= src {
        // Front to back: each source byte is read before any write reaches it.
        let mut i: usize = 0;
        while i < n
            invariant
                i <= n,
                dest <= src,
                dest + n <= start.len(),
                src + n <= start.len(),
                buf@.len() == start.len(),
                start.len() == len,
                forall|k: int|
                    0 <= k < buf@.len() ==> #[trigger] buf@[k] == if dest <= k < dest + i {
                        start[src + (k - dest)]
                    } else {
                        start[k]
                    },
            decreases n - i,
        {
            let b = buf[src + i];
            buf[dest + i] = b;
            i = i + 1;
        }
    } else {
        // Back to front: each source byte is read before any write reaches it.
        let mut i: usize = n;
        while i > 0
            invariant
                i <= n,
                src < dest,
                dest + n <= start.len(),
                buf@.len() == start.len(),
                start.len() == len,
                forall|k: int|
                    0 <= k < buf@.len() ==> #[trigger] buf@[k] == if dest + i <= k < dest + n {
                        start[src + (k - dest)]
                    } else {
                        start[k]
                    },
            decreases i,
        {
            i = i - 1;
            let b = buf[src + i];
            buf[dest + i] = b;
        }
    }
    assert(buf@ =~= moved(start, dest as int, src as int, n as int));
}

/// Fills the first `n` bytes of `s` with the low byte of `c`.
pub fn memset(s: &mut [u8], c: i32, n: usize)
    requires
        n <= old(s)@.len(),
    ensures
        final(s)@ == Seq::new(n as nat, |k: int| c as u8) + old(s)@.skip(n as int),
{
    let b = c as u8;
    let mut i: usize = 0;
    while i < n
        invariant
            i <= n,
            n <= s@.len(),
            b == c as u8,
            s@.len() == old(s)@.len(),
            forall|k: int| 0 <= k < i ==> s@[k] == b,
            forall|k: int| i <= k < s@.len() ==> s@[k] == old(s)@[k],
        decreases n - i,
    {
        s[i] = b;
        i = i + 1;
    }
    assert(s@ =~= Seq::new(n as nat, |k: int| c as u8) + old(s)@.skip(n as int));
}

/// The C comparison of two byte strings of equal length: 0 when equal,
/// otherwise the difference of the bytes at the first position where they
/// differ.
pub open spec fn compare(a: Seq<u8>, b: Seq<u8>) -> int
    decreases a.len(),
{
    if a.len() == 0 || b.len() == 0 {
        0
    } else if a[0] != b[0] {
        a[0] - b[0]
    } else {
        compare(a.drop_first(), b.drop_first())
    }
}

/// Comparing from position `i` on, once the bytes before `i` are equal.
proof fn lemma_compare_from(a: Seq<u8>, b: Seq<u8>, i: int)
    requires
        a.len() == b.len(),
        0 <= i <= a.len(),
        forall|k: int| 0 <= k < i ==> a[k] == b[k],
    ensures
        compare(a, b) == compare(a.skip(i), b.skip(i)),
    decreases i,
{
    if i > 0 {
        lemma_compare_from(a, b, i - 1);
        assert(a.skip(i - 1).drop_first() =~= a.skip(i));
        assert(b.skip(i - 1).drop_first() =~= b.skip(i));
    } else {
        assert(a.skip(0) =~= a);
        assert(b.skip(0) =~= b);
    }
}

/// The first `n` bytes of `s`.
pub open spec fn leading(s: Seq<u8>, n: usize) -> Seq<u8> {
    s.take(n as int)
}

/// Compares the first `n` bytes of `s1` and `s2` (see `memcmp`).
pub fn compare_bytes(s1: &[u8], s2: &[u8], n: usize) -> (r: i32)
    requires
        n <= s1@.len(),
        n <= s2@.len(),
    ensures
        r == compare(leading(s1@, n), leading(s2@, n)),
        (forall|k: int| 0 <= k < n ==> s1@[k] == s2@[k]) ==> r == 0,
        forall|i: int|
            0 <= i < n && #[trigger] s1@[i] != s2@[i] && (forall|k: int|
                0 <= k < i ==> s1@[k] == s2@[k]) ==> r == s1@[i] - s2@[i],
{
    let ghost a = s1@.take(n as int);
    let ghost b = s2@.take(n as int);
    let mut i: usize = 0;
    while i < n
        invariant
            i <= n,
            n <= s1@.len(),
            n <= s2@.len(),
            a == s1@.take(n as int),
            b == s2@.take(n as int),
            forall|k: int| 0 <= k < i ==> a[k] == b[k],
            forall|k: int| 0 <= k < i ==> s1@[k] == s2@[k],
        decreases n - i,
    {
        if s1[i] != s2[i] {
            proof {
                lemma_compare_from(a, b, i as int);
                assert forall|j: int|
                    0 <= j < n && #[trigger] s1@[j] != s2@[j] && (forall|k: int|
                        0 <= k < j ==> s1@[k] == s2@[k]) implies j == i by {
                    if j > i {
                        assert(s1@[i as int] == s2@[i as int]);
                    }
                }
            }
            return s1[i] as i32 - s2[i] as i32;
        }
        i = i + 1;
    }
    proof {
        lemma_compare_from(a, b, n as int);
    }
    0
}

/// Compares the first `n` bytes of `s1` and `s2`: 0 when they are equal,
/// otherwise `s1[i] - s2[i]` at the first position `i` where they differ.
pub fn memcmp(s1: &[u8], s2: &[u8], n: usize) -> (r: i32)
    requires
        n <= s1@.len(),
        n <= s2@.len(),
    ensures
        r == compare(leading(s1@, n), leading(s2@, n)),
        (forall|k: int| 0 <= k < n ==> s1@[k] == s2@[k]) ==> r == 0,
        forall|i: int|
            0 <= i < n && #[trigger] s1@[i] != s2@[i] && (forall|k: int|
                0 <= k < i ==> s1@[k] == s2@[k]) ==> r == s1@[i] - s2@[i],
{
    compare_bytes(s1, s2, n)
}

/// Same as `memcmp`.
pub fn bcmp(s1: &[u8], s2: &[u8], n: usize) -> (r: i32)
    requires
        n <= s1@.len(),
        n <= s2@.len(),
    ensures
        r == compare(leading(s1@, n), leading(s2@, n)),
        (forall|k: int| 0 <= k < n ==> s1@[k] == s2@[k]) ==> r == 0,
        forall|i: int|
            0 <= i < n && #[trigger] s1@[i] != s2@[i] && (forall|k: int|
                0 <= k < i ==> s1@[k] == s2@[k]) ==> r == s1@[i] - s2@[i],
{
    compare_bytes(s1, s2, n)
}

/// The comparison is decided by the first position where the strings
/// differ: if they agree before `i` and differ at `i`, it is `a[i] - b[i]`
/// (so it is negative exactly when `a[i] < b[i]`).
pub proof fn lemma_compare_first_difference(a: Seq<u8>, b: Seq<u8>, i: int)
    requires
        a.len() == b.len(),
        0 <= i < a.len(),
        forall|k: int| 0 <= k < i ==> a[k] == b[k],
        a[i] != b[i],
    ensures
        compare(a, b) == a[i] - b[i],
        compare(a, b) < 0 <==> a[i] < b[i],
{
    lemma_compare_from(a, b, i);
    assert(a.skip(i)[0] == a[i]);
    assert(b.skip(i)[0] == b[i]);
}

/// The comparison is 0 exactly when the byte strings are equal, and swapping
/// the arguments negates it.
pub proof fn lemma_compare_laws(a: Seq<u8>, b: Seq<u8>)
    requires
        a.len() == b.len(),
    ensures
        compare(a, b) == 0 <==> a == b,
        compare(b, a) == -compare(a, b),
        -255 <= compare(a, b) <= 255,
    decreases a.len(),
{
    if a.len() > 0 {
        lemma_compare_laws(a.drop_first(), b.drop_first());
        if a[0] == b[0] && a.drop_first() == b.drop_first() {
            assert(a =~= seq![a[0]] + a.drop_first());
            assert(b =~= seq![b[0]] + b.drop_first());
        }
    } else {
        assert(a =~= b);
    }
}

} // verus!
