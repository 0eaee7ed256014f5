//! Recognising the target by the names the operating system reports: the
//! executable's path, a module's name, a mapped file's path, and a command
//! line. Names are compared as UTF-8 bytes, case-insensitively only in ASCII.

use vstd::prelude::*;
use vstd::slice::slice_subrange;
use vstd::utf8::encode_utf8;

verus! {

/// File name of the target's executable.
pub const TARGET_EXECUTABLE: &'static str = "cloudmusic.exe";

/// File name of the module that holds the playback code.
pub const TARGET_MODULE: &'static str = "cloudmusic.dll";

/// Argument that marks a helper process of the target rather than the main one.
pub const HELPER_PROCESS_FLAG: &'static str = "--type";

/// The UTF-8 bytes of a text.
pub open spec fn text_bytes(s: Seq<char>) -> Seq<u8> {
    encode_utf8(s)
}

/// `b` with an ASCII capital letter turned into its small letter.
pub open spec fn ascii_lower(b: u8) -> u8 {
    if 0x41 <= b <= 0x5A {
        (b + 32) as u8
    } else {
        b
    }
}

/// `a` and `b` are equal when ASCII letters are compared without case.
pub open spec fn eq_ignore_ascii_case(a: Seq<u8>, b: Seq<u8>) -> bool {
    &&& a.len() == b.len()
    &&& forall|i: int| 0 <= i < a.len() ==> #[trigger] ascii_lower(a[i]) == ascii_lower(b[i])
}

/// `b` separates the components of a path.
pub open spec fn is_separator(b: u8) -> bool {
    b == 0x2F || b == 0x5C
}

/// Where the last component of `p` starts: just after its last separator.
pub open spec fn file_name_start(p: Seq<u8>) -> int
    decreases p.len(),
{
    if p.len() == 0 {
        0
    } else if is_separator(p.last()) {
        p.len() as int
    } else {
        file_name_start(p.drop_last())
    }
}

/// The last component of `p`: what follows its last separator.
pub open spec fn file_name(p: Seq<u8>) -> Seq<u8> {
    p.subrange(file_name_start(p), p.len() as int)
}

/// `s` ends with `suffix`.
pub open spec fn ends_with(s: Seq<u8>, suffix: Seq<u8>) -> bool {
    suffix.len() <= s.len() && s.subrange(s.len() - suffix.len(), s.len() as int) == suffix
}

/// `needle` occurs in `s` at `k`.
pub open spec fn occurs_at(s: Seq<u8>, needle: Seq<u8>, k: int) -> bool {
    0 <= k && k + needle.len() <= s.len() && s.subrange(k, k + needle.len()) == needle
}

/// `needle` occurs somewhere in `s`.
pub open spec fn contains(s: Seq<u8>, needle: Seq<u8>) -> bool {
    exists|k: int| occurs_at(s, needle, k)
}

proof fn lemma_file_name_start_bounds(p: Seq<u8>)
    ensures
        0 <= file_name_start(p) <= p.len(),
    decreases p.len(),
{
    if p.len() > 0 && !is_separator(p.last()) {
        lemma_file_name_start_bounds(p.drop_last());
    }
}

/// Offset of the last component of a path.
pub fn file_name_offset(p: &[u8]) -> (r: usize)
    ensures
        r == file_name_start(p@),
        r <= p@.len(),
{
    let mut start: usize = 0;
    let mut i: usize = 0;
    while i < p.len()
        invariant
            i <= p@.len(),
            start == file_name_start(p@.subrange(0, i as int)),
            start <= i,
        decreases p@.len() - i,
    {
        assert(p@.subrange(0, i + 1).drop_last() == p@.subrange(0, i as int));
        if p[i] == 0x2F || p[i] == 0x5C {
            start = i + 1;
        }
        i = i + 1;
    }
    assert(p@.subrange(0, p@.len() as int) == p@);
    start
}

/// Compares two byte strings, treating ASCII letters without case.
pub fn bytes_eq_ignore_ascii_case(a: &[u8], b: &[u8]) -> (r: bool)
    ensures
        r == eq_ignore_ascii_case(a@, b@),
{
    if a.len() != b.len() {
        return false;
    }
    let mut i: usize = 0;
    while i < a.len()
        invariant
            a@.len() == b@.len(),
            i <= a@.len(),
            forall|j: int| 0 <= j < i ==> #[trigger] ascii_lower(a@[j]) == ascii_lower(b@[j]),
        decreases a@.len() - i,
    {
        let x = if 0x41 <= a[i] && a[i] <= 0x5A {
            a[i] + 32
        } else {
            a[i]
        };
        let y = if 0x41 <= b[i] && b[i] <= 0x5A {
            b[i] + 32
        } else {
            b[i]
        };
        if x != y {
            assert(ascii_lower(a@[i as int]) != ascii_lower(b@[i as int]));
            return false;
        }
        i = i + 1;
    }
    true
}

/// Whether `needle` occurs in `s` at offset `k`.
fn occurs_at_offset(s: &[u8], needle: &[u8], k: usize) -> (r: bool)
    requires
        k + needle@.len() <= s@.len(),
    ensures
        r == occurs_at(s@, needle@, k as int),
{
    let mut i: usize = 0;
    while i < needle.len()
        invariant
            s@.len() == s.len(),
            k + needle@.len() <= s@.len(),
            i <= needle@.len(),
            forall|j: int| 0 <= j < i ==> s@[k + j] == #[trigger] needle@[j],
        decreases needle@.len() - i,
    {
        if s[k + i] != needle[i] {
            assert(s@.subrange(k as int, k + needle@.len())[i as int] != needle@[i as int]);
            return false;
        }
        i = i + 1;
    }
    assert(s@.subrange(k as int, k + needle@.len()) == needle@);
    true
}

/// Whether `s` ends with `suffix`.
pub fn bytes_end_with(s: &[u8], suffix: &[u8]) -> (r: bool)
    ensures
        r == ends_with(s@, suffix@),
{
    if suffix.len() > s.len() {
        return false;
    }
    occurs_at_offset(s, suffix, s.len() - suffix.len())
}

/// Whether `needle` occurs anywhere in `s`.
pub fn bytes_contain(s: &[u8], needle: &[u8]) -> (r: bool)
    ensures
        r == contains(s@, needle@),
{
    if needle.len() > s.len() {
        assert forall|k: int| !occurs_at(s@, needle@, k) by {}
        return false;
    }
    if needle.len() == 0 {
        assert(s@.subrange(0, 0) == needle@);
        assert(occurs_at(s@, needle@, 0));
        return true;
    }
    let last = s.len() - needle.len();
    let mut k: usize = 0;
    while k <= last
        invariant
            s@.len() == s.len(),
            last == s@.len() - needle@.len(),
            needle@.len() > 0,
            k <= last + 1,
            forall|j: int| 0 <= j < k ==> !#[trigger] occurs_at(s@, needle@, j),
        decreases last + 1 - k,
    {
        if occurs_at_offset(s, needle, k) {
            return true;
        }
        k = k + 1;
    }
    assert forall|j: int| !#[trigger] occurs_at(s@, needle@, j) by {
        if 0 <= j < k {
        }
    }
    false
}

/// The executable path of a process names the target's executable, in any
/// ASCII case.
pub fn is_target_image_path(path: &str) -> (r: bool)
    ensures
        r == eq_ignore_ascii_case(file_name(text_bytes(path@)), text_bytes(TARGET_EXECUTABLE@)),
{
    let p = path.as_bytes();
    let start = file_name_offset(p);
    proof {
        lemma_file_name_start_bounds(p@);
    }
    let name = slice_subrange(p, start, p.len());
    bytes_eq_ignore_ascii_case(name, TARGET_EXECUTABLE.as_bytes())
}

/// A module's base name is the target module's name, in any ASCII case.
pub fn is_target_module_name(name: &str) -> (r: bool)
    ensures
        r == eq_ignore_ascii_case(text_bytes(name@), text_bytes(TARGET_MODULE@)),
{
    bytes_eq_ignore_ascii_case(name.as_bytes(), TARGET_MODULE.as_bytes())
}

/// A mapped file is the target module: its last path component is exactly
/// the module's name.
pub fn is_module_file_path(path: &str) -> (r: bool)
    ensures
        r == (file_name(text_bytes(path@)) == text_bytes(TARGET_MODULE@)),
{
    let p = path.as_bytes();
    let start = file_name_offset(p);
    let name = slice_subrange(p, start, p.len());
    let target = TARGET_MODULE.as_bytes();
    if name.len() != target.len() {
        return false;
    }
    let same = occurs_at_offset(name, target, 0);
    assert(same ==> name@ == target@) by {
        assert(name@.subrange(0, target@.len() as int) == name@);
    }
    assert(name@ == target@ ==> same) by {
        assert(name@.subrange(0, target@.len() as int) == name@);
    }
    same
}

/// The command line of the target's main process: its first argument ends
/// with the executable's name, and no argument marks a helper process.
pub open spec fn is_target_command_line(args: Seq<String>) -> bool {
    &&& args.len() > 0
    &&& ends_with(text_bytes(args[0]@), text_bytes(TARGET_EXECUTABLE@))
    &&& forall|i: int|
        0 <= i < args.len() ==> !contains(
            #[trigger] text_bytes(args[i]@),
            text_bytes(HELPER_PROCESS_FLAG@),
        )
}

/// Whether a command line is that of the target's main process.
pub fn is_target_cmdline(args: &[String]) -> (r: bool)
    ensures
        r == is_target_command_line(args@),
{
    if args.len() == 0 {
        return false;
    }
    if !bytes_end_with(args[0].as_str().as_bytes(), TARGET_EXECUTABLE.as_bytes()) {
        return false;
    }
    let mut i: usize = 0;
    while i < args.len()
        invariant
            i <= args@.len(),
            forall|j: int|
                0 <= j < i ==> !contains(
                    #[trigger] text_bytes(args@[j]@),
                    text_bytes(HELPER_PROCESS_FLAG@),
                ),
        decreases args@.len() - i,
    {
        if bytes_contain(args[i].as_str().as_bytes(), HELPER_PROCESS_FLAG.as_bytes()) {
            assert(contains(text_bytes(args@[i as int]@), text_bytes(HELPER_PROCESS_FLAG@)));
            return false;
        }
        i = i + 1;
    }
    true
}

} // verus!
