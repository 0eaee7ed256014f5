//! Byte signatures with wildcard positions, and the search for their first
//! occurrence in a buffer.

use vstd::prelude::*;
use crate::header::Architecture;

verus! {

/// `pattern` occurs in `buf` at offset `k`: it fits there, and every
/// non-wildcard cell equals the byte under it.
pub open spec fn matches_at(buf: Seq<u8>, pattern: Seq<Option<u8>>, k: int) -> bool {
    &&& 0 <= k
    &&& k + pattern.len() <= buf.len()
    &&& forall|i: int|
        0 <= i < pattern.len() ==> (#[trigger] pattern[i] matches Some(b) ==> buf[k + i] == b)
}

/// `k` is where the first occurrence of `pattern` in `buf` starts.
pub open spec fn is_first_match(buf: Seq<u8>, pattern: Seq<Option<u8>>, k: int) -> bool {
    &&& matches_at(buf, pattern, k)
    &&& forall|j: int| 0 <= j < k ==> !#[trigger] matches_at(buf, pattern, j)
}

/// What a scan of `buf` for `pattern` returns: the offset of the first
/// occurrence, or nothing when there is none.
pub open spec fn scan_result(buf: Seq<u8>, pattern: Seq<Option<u8>>, r: Option<usize>) -> bool {
    match r {
        Some(k) => is_first_match(buf, pattern, k as int),
        None => forall|j: int| !#[trigger] matches_at(buf, pattern, j),
    }
}

/// Number of fixed bytes that precede the operand in both signatures.
pub const OPCODE_PREFIX_LEN: usize = 4;

/// Two chained stores of a double to instruction-relative memory:
/// `movsd [rip+disp32], xmm7` followed by `movsd [rip+disp32], xmm6`.
pub open spec fn signature_64() -> Seq<Option<u8>> {
    seq![
        Some(0xF2u8), Some(0x0Fu8), Some(0x11u8), Some(0x3Du8),
        None, None, None, None,
        Some(0xF2u8), Some(0x0Fu8), Some(0x11u8), Some(0x35u8),
    ]
}

/// A store of a double to an absolute address, `movsd [disp32], xmm0`,
/// followed by a push of a 32-bit immediate.
pub open spec fn signature_32() -> Seq<Option<u8>> {
    seq![
        Some(0xF2u8), Some(0x0Fu8), Some(0x11u8), Some(0x05u8),
        None, None, None, None,
        Some(0x68u8), None, None, None, None,
    ]
}

/// The signature searched for in a module of the given architecture.
pub open spec fn signature_for(arch: Architecture) -> Seq<Option<u8>> {
    match arch {
        Architecture::Bits64 => signature_64(),
        Architecture::Bits32 => signature_32(),
    }
}

/// Builds the signature for a module of the given architecture.
pub fn signature(arch: Architecture) -> (r: Vec<Option<u8>>)
    ensures
        r@ == signature_for(arch),
        r@.len() >= OPCODE_PREFIX_LEN + 4,
        forall|i: int| 0 <= i < OPCODE_PREFIX_LEN ==> r@[i] is Some,
{
    match arch {
        Architecture::Bits64 => {
            let r = vec![
                Some(0xF2u8), Some(0x0Fu8), Some(0x11u8), Some(0x3Du8),
                None, None, None, None,
                Some(0xF2u8), Some(0x0Fu8), Some(0x11u8), Some(0x35u8),
            ];
            assert(r@ == signature_64());
            r
        },
        Architecture::Bits32 => {
            let r = vec![
                Some(0xF2u8), Some(0x0Fu8), Some(0x11u8), Some(0x05u8),
                None, None, None, None,
                Some(0x68u8), None, None, None, None,
            ];
            assert(r@ == signature_32());
            r
        },
    }
}

/// Whether `pattern` occurs in `buf` at offset `k`.
pub fn matches_at_offset(buf: &[u8], pattern: &[Option<u8>], k: usize) -> (r: bool)
    ensures
        r == matches_at(buf@, pattern@, k as int),
{
    let n = buf.len();
    let m = pattern.len();
    if k > n || n - k < m {
        return false;
    }
    let mut i: usize = 0;
    while i < m
        invariant
            i <= m,
            m == pattern@.len(),
            n == buf@.len(),
            k + m <= n,
            forall|t: int| 0 <= t < i ==> (#[trigger] pattern@[t] matches Some(b) ==> buf@[k + t] == b),
        decreases m - i,
    {
        match pattern[i] {
            Some(b) => {
                if buf[k + i] != b {
                    return false;
                }
            },
            None => {},
        }
        i = i + 1;
    }
    true
}

/// Finds the first offset in `buf` at which `pattern` occurs.
pub fn scan(buf: &[u8], pattern: &[Option<u8>]) -> (r: Option<usize>)
    ensures
        scan_result(buf@, pattern@, r),
{
    let n = buf.len();
    let m = pattern.len();
    if m > n {
        assert forall|j: int| !#[trigger] matches_at(buf@, pattern@, j) by {}
        return None;
    }
    let last = n - m;
    let mut k: usize = 0;
    while k <= last
        invariant
            n == buf@.len(),
            m == pattern@.len(),
            last == n - m,
            k <= last + 1,
            forall|j: int| 0 <= j < k ==> !#[trigger] matches_at(buf@, pattern@, j),
        decreases last + 1 - k,
    {
        if matches_at_offset(buf, pattern, k) {
            return Some(k);
        }
        k = k + 1;
    }
    assert forall|j: int| !#[trigger] matches_at(buf@, pattern@, j) by {
        if 0 <= j < k {
        }
    }
    None
}

/// A scan of a buffer in which the pattern occurs at `k`, and nowhere before
/// `k`, returns `k`.
pub proof fn lemma_scan_finds_occurrence(
    buf: Seq<u8>,
    pattern: Seq<Option<u8>>,
    k: usize,
    r: Option<usize>,
)
    requires
        matches_at(buf, pattern, k as int),
        forall|j: int| 0 <= j < k ==> !#[trigger] matches_at(buf, pattern, j),
        scan_result(buf, pattern, r),
    ensures
        r == Some(k),
{
    match r {
        Some(found) => {
            if found < k {
                assert(!matches_at(buf, pattern, found as int));
            } else if found > k {
                assert(!matches_at(buf, pattern, k as int));
            }
        },
        None => {
            assert(!matches_at(buf, pattern, k as int));
        },
    }
}

/// Two buffers that differ only in bytes lying under wildcard cells of an
/// occurrence at `k` both hold an occurrence at `k`; if that is the first
/// occurrence in one buffer and the changes create none before `k` in the
/// other, a scan of either returns the same offset.
pub proof fn lemma_wildcard_bytes_ignored(
    before: Seq<u8>,
    after: Seq<u8>,
    pattern: Seq<Option<u8>>,
    k: usize,
    r_before: Option<usize>,
    r_after: Option<usize>,
)
    requires
        before.len() == after.len(),
        forall|i: int|
            0 <= i < before.len() && !(k <= i < k + pattern.len()) ==> #[trigger] before[i]
                == after[i],
        forall|i: int|
            0 <= i < pattern.len() && #[trigger] pattern[i] is Some ==> before[k + i] == after[k
                + i],
        scan_result(before, pattern, r_before),
        scan_result(after, pattern, r_after),
        r_before == Some(k),
        forall|j: int| 0 <= j < k ==> !#[trigger] matches_at(after, pattern, j),
    ensures
        matches_at(after, pattern, k as int),
        r_after == r_before,
{
    assert(matches_at(before, pattern, k as int));
    lemma_scan_finds_occurrence(after, pattern, k, r_after);
}

} // verus!
