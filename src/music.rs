//! The track the player reports as playing, as its history store records it.

use vstd::prelude::*;
use crate::names::text_bytes;

verus! {

/// One track from the player's playback history.
#[derive(Clone, Debug)]
pub struct Music {
    pub id: i64,
    pub aliases: Option<Vec<String>>,
    pub thumbnail: String,
    pub album: String,
    pub artists: Vec<String>,
    pub duration: i64,
    pub name: String,
}

/// `c` is an ASCII decimal digit.
pub open spec fn is_digit(c: u8) -> bool {
    0x30 <= c <= 0x39
}

/// The value of a string of decimal digits.
pub open spec fn digits_value(s: Seq<u8>) -> int
    decreases s.len(),
{
    if s.len() == 0 {
        0
    } else {
        digits_value(s.drop_last()) * 10 + (s.last() - 0x30)
    }
}

/// Length of the sign that a text starts with: 1 for `+` or `-`, else 0.
pub open spec fn sign_len(s: Seq<u8>) -> int {
    if s.len() > 0 && (s[0] == 0x2D || s[0] == 0x2B) {
        1
    } else {
        0
    }
}

/// The digits of a text, after its sign.
pub open spec fn magnitude_digits(s: Seq<u8>) -> Seq<u8> {
    s.subrange(sign_len(s), s.len() as int)
}

/// The integer a text denotes in the syntax of `i64`'s parser: an optional
/// `+` or `-`, then at least one decimal digit, with a value that fits.
pub open spec fn parsed_i64(s: Seq<u8>) -> Option<i64> {
    let body = magnitude_digits(s);
    let v = if s.len() > 0 && s[0] == 0x2D {
        -digits_value(body)
    } else {
        digits_value(body)
    };
    if body.len() > 0 && (forall|i: int| 0 <= i < body.len() ==> #[trigger] is_digit(body[i]))
        && i64::MIN <= v <= i64::MAX {
        Some(v as i64)
    } else {
        None
    }
}

/// The id a history record's text gives: its integer value, or 0 when the
/// text is not an integer that fits.
pub open spec fn track_id_of(s: Seq<u8>) -> i64 {
    match parsed_i64(s) {
        Some(v) => v,
        None => 0,
    }
}

proof fn lemma_digits_value_nonnegative(s: Seq<u8>)
    requires
        forall|i: int| 0 <= i < s.len() ==> #[trigger] is_digit(s[i]),
    ensures
        digits_value(s) >= 0,
    decreases s.len(),
{
    if s.len() > 0 {
        assert(is_digit(s[s.len() - 1]));
        lemma_digits_value_nonnegative(s.drop_last());
    }
}

proof fn lemma_digits_value_grows(s: Seq<u8>, n: int)
    requires
        0 <= n <= s.len(),
        forall|i: int| 0 <= i < s.len() ==> #[trigger] is_digit(s[i]),
    ensures
        digits_value(s.subrange(0, n)) <= digits_value(s),
    decreases s.len() - n,
{
    if n < s.len() {
        lemma_digits_value_grows(s, n + 1);
        let p = s.subrange(0, n + 1);
        assert(p.drop_last() == s.subrange(0, n));
        assert(is_digit(p.last()));
        lemma_digits_value_nonnegative(s.subrange(0, n));
        assert(digits_value(p) >= digits_value(s.subrange(0, n)));
    } else {
        assert(s.subrange(0, n) == s);
    }
}

/// Parses the id of a track, falling back to 0 when the text is not an
/// integer that fits in an `i64`.
#[verifier::loop_isolation(false)]
pub fn parse_track_id(text: &str) -> (r: i64)
    ensures
        r == track_id_of(text_bytes(text@)),
{
    let s = text.as_bytes();
    assert(s@ == text_bytes(text@));
    let n = s.len();
    let negative = n > 0 && s[0] == 0x2D;
    let signed = n > 0 && (s[0] == 0x2D || s[0] == 0x2B);
    let start: usize = if signed {
        1
    } else {
        0
    };
    let ghost body = s@.subrange(start as int, n as int);
    assert(body == magnitude_digits(s@));
    if start == n {
        return 0;
    }
    let limit: u64 = if negative {
        0x8000_0000_0000_0000
    } else {
        0x7FFF_FFFF_FFFF_FFFF
    };
    let mut acc: u64 = 0;
    let mut i: usize = start;
    while i < n
        invariant
            n == s@.len(),
            start <= i <= n,
            body == s@.subrange(start as int, n as int),
            acc == digits_value(body.subrange(0, i - start)),
            acc <= limit,
            forall|j: int| 0 <= j < i - start ==> #[trigger] is_digit(body[j]),
        decreases n - i,
    {
        let c = s[i];
        assert(body[i - start] == c);
        if c < 0x30 || c > 0x39 {
            assert(!is_digit(body[i - start]));
            return 0;
        }
        let d = (c - 0x30) as u64;
        assert(body.subrange(0, i + 1 - start).drop_last() == body.subrange(0, i - start));
        assert(body.subrange(0, i + 1 - start).last() == c);
        if acc > limit / 10 || (acc == limit / 10 && d > limit % 10) {
            assert(acc * 10 + d > limit) by (nonlinear_arith)
                requires
                    acc > limit / 10 || (acc == limit / 10 && d > limit % 10),
                    limit > 0,
            ;
            proof {
                if forall|j: int| 0 <= j < body.len() ==> #[trigger] is_digit(body[j]) {
                    lemma_digits_value_grows(body, i + 1 - start);
                }
            }
            return 0;
        }
        acc = acc * 10 + d;
        i = i + 1;
    }
    assert(body.subrange(0, n - start) == body);
    if negative {
        if acc == 0x8000_0000_0000_0000 {
            i64::MIN
        } else {
            -(acc as i64)
        }
    } else {
        acc as i64
    }
}

impl Music {
    /// A track from the fields of a history record: the id is parsed from
    /// its text, and an empty list of aliases counts as none.
    pub fn from_record(
        id_text: &str,
        aliases: Option<Vec<String>>,
        thumbnail: String,
        album: String,
        artists: Vec<String>,
        duration: i64,
        name: String,
    ) -> (r: Music)
        ensures
            r.id == track_id_of(text_bytes(id_text@)),
            r.aliases == match aliases {
                Some(a) => if a@.len() == 0 {
                    None
                } else {
                    Some(a)
                },
                None => None,
            },
            r.thumbnail == thumbnail,
            r.album == album,
            r.artists == artists,
            r.duration == duration,
            r.name == name,
    {
        let aliases = match aliases {
            Some(a) => if a.len() == 0 {
                None
            } else {
                Some(a)
            },
            None => None,
        };
        Music {
            id: parse_track_id(id_text),
            aliases,
            thumbnail,
            album,
            artists,
            duration,
            name,
        }
    }
}

/// Where the history store of a player running under a compatibility prefix
/// lives, for the given prefix directory and user name.
pub open spec fn webdb_path_text(prefix: Seq<char>, user: Seq<char>) -> Seq<char> {
    prefix + "/drive_c/users/"@ + user + "/AppData/Local/NetEase/CloudMusic/Library/webdb.dat"@
}

/// Builds the path of the history store inside a compatibility prefix.
pub fn wine_webdb_path(prefix: &str, user: &str) -> (r: String)
    ensures
        r@ == webdb_path_text(prefix@, user@),
{
    let mut path = String::from_str(prefix);
    path.append("/drive_c/users/");
    path.append(user);
    path.append("/AppData/Local/NetEase/CloudMusic/Library/webdb.dat");
    assert(path@ =~= webdb_path_text(prefix@, user@));
    path
}

} // verus!
