//! Fixed-capacity byte buffers for composing screen text without an
//! allocator: bytes past the capacity are dropped silently.

use vstd::prelude::*;
use vstd::utf8::valid_utf8;

verus! {

/// `s` cut to at most `cap` bytes.
pub open spec fn truncated(s: Seq<u8>, cap: int) -> Seq<u8> {
    if s.len() <= cap {
        s
    } else {
        s.take(cap)
    }
}

/// A buffer of capacity `N` whose first `len` bytes are `content` and whose
/// remaining bytes are zero.
pub open spec fn holds<const N: usize>(buf: [u8; N], len: usize, content: Seq<u8>) -> bool {
    &&& len <= N
    &&& content.len() == len
    &&& buf@.take(len as int) == content
    &&& forall|k: int| len <= k < N ==> buf@[k] == 0
}

/// Appending to a cut sequence and cutting again is cutting the whole.
proof fn lemma_truncated_push(s: Seq<u8>, b: u8, cap: int)
    requires
        0 <= cap,
    ensures
        truncated(s.push(b), cap) == if truncated(s, cap).len() < cap {
            truncated(s, cap).push(b)
        } else {
            truncated(s, cap)
        },
{
    if s.len() + 1 <= cap {
    } else if s.len() <= cap {
        assert(s.len() == cap);
        assert(s.push(b).take(cap) =~= s);
    } else {
        assert(s.push(b).take(cap) =~= s.take(cap));
    }
}

/// Pushes `b`, dropping it silently when the buffer is full.
pub fn push_byte<const N: usize>(buf: &mut [u8; N], len: &mut usize, b: u8)
    ensures
        *old(len) < N ==> final(buf)@ == old(buf)@.update(*old(len) as int, b) && *final(len) == *old(
            len,
        ) + 1,
        *old(len) >= N ==> final(buf)@ == old(buf)@ && *final(len) == *old(len),
{
    if *len < N {
        buf[*len] = b;
        *len = *len + 1;
    }
}

/// Appends `bytes` to the buffer holding `content`, keeping at most `N`
/// bytes in all.
pub(crate) fn append_truncated<const N: usize>(
    buf: &mut [u8; N],
    len: &mut usize,
    bytes: &[u8],
    Ghost(content): Ghost<Seq<u8>>,
)
    requires
        holds(*old(buf), *old(len), truncated(content, N as int)),
    ensures
        holds(*final(buf), *final(len), truncated(content + bytes@, N as int)),
{
    let mut i: usize = 0;
    while i < bytes.len()
        invariant
            i <= bytes.len(),
            holds(*buf, *len, truncated(content + bytes@.take(i as int), N as int)),
        decreases bytes.len() - i,
    {
        let ghost before = *buf;
        let ghost prefix = content + bytes@.take(i as int);
        proof {
            assert(content + bytes@.take(i + 1) =~= prefix.push(bytes@[i as int]));
            lemma_truncated_push(prefix, bytes@[i as int], N as int);
        }
        push_byte(buf, len, bytes[i]);
        proof {
            if truncated(prefix, N as int).len() < N {
                assert(buf@.take(*len as int) =~= before@.take(*len - 1).push(bytes@[i as int]));
            }
        }
        i = i + 1;
    }
    proof {
        assert(bytes@.take(bytes@.len() as int) =~= bytes@);
    }
}

/// Calls `core::str::from_utf8` and reports whether it accepted `bytes`.
/// Claimed: it accepts exactly the byte strings that are valid UTF-8, as
/// vstd's `valid_utf8` defines them (the standard library documents
/// `from_utf8` as returning an error precisely when the bytes are not UTF-8).
#[verifier::external_body]
pub(crate) fn is_utf8(bytes: &[u8]) -> (ok: bool)
    ensures
        ok == valid_utf8(bytes@),
{
    core::str::from_utf8(bytes).is_ok()
}

} // verus!
