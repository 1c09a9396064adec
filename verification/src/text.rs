//! Small verified string utilities used by the router and the upgrade
//! validation: exact equality, and ASCII-case-folded substring search
//! (header values such as `Connection: keep-alive, Upgrade` are matched
//! case-insensitively).

use vstd::prelude::*;
use vstd::string::StrSliceExecFns;

verus! {

/// The code point of `c` with an ASCII upper-case letter folded to lower
/// case; any other character is left as it is.
pub open spec fn lower_code(c: char) -> int {
    if 65 <= c as int && c as int <= 90 {
        c as int + 32
    } else {
        c as int
    }
}

/// The needle occurs at position `i` of the haystack once the haystack is
/// ASCII-lower-cased; the needle itself is taken verbatim.
pub open spec fn matches_lowered_at(hay: Seq<char>, needle: Seq<char>, i: int) -> bool {
    forall|j: int| 0 <= j < needle.len() ==> #[trigger] lower_code(hay[i + j]) == needle[j] as int
}

/// The needle occurs somewhere in the ASCII-lower-cased haystack.
pub open spec fn contains_lowered(hay: Seq<char>, needle: Seq<char>) -> bool {
    exists|i: int| 0 <= i && i + needle.len() <= hay.len() && #[trigger] matches_lowered_at(
        hay,
        needle,
        i,
    )
}

/// Exact character-for-character string equality.
pub fn str_eq(a: &str, b: &str) -> (r: bool)
    ensures
        r == (a@ == b@),
{
    let an = a.unicode_len();
    let bn = b.unicode_len();
    if an != bn {
        return false;
    }
    let mut i: usize = 0;
    while i < an
        invariant
            an == a@.len(),
            an == b@.len(),
            i <= an,
            forall|j: int| 0 <= j < i ==> a@[j] == b@[j],
        decreases an - i,
    {
        let ca = a.get_char(i);
        let cb = b.get_char(i);
        if ca != cb {
            return false;
        }
        i += 1;
    }
    proof {
        assert(a@ =~= b@);
    }
    true
}

/// Whether the needle, taken verbatim, occurs at position `i` of the
/// ASCII-lower-cased haystack.
fn matches_at(hay: &str, needle: &str, i: usize, hn: usize, nn: usize) -> (r: bool)
    requires
        hn == hay@.len(),
        nn == needle@.len(),
        i + nn <= hn,
    ensures
        r == matches_lowered_at(hay@, needle@, i as int),
{
    let mut j: usize = 0;
    while j < nn
        invariant
            hn == hay@.len(),
            nn == needle@.len(),
            i + nn <= hn,
            j <= nn,
            forall|l: int| 0 <= l < j ==> #[trigger] lower_code(hay@[i + l]) == needle@[l] as int,
        decreases nn - j,
    {
        let hc = hay.get_char(i + j);
        let nc = needle.get_char(j);
        let code = hc as u32;
        let folded: u32 = if code >= 65 && code <= 90 {
            code + 32
        } else {
            code
        };
        if folded != nc as u32 {
            proof {
                assert(lower_code(hay@[i + j]) != needle@[j as int] as int);
            }
            return false;
        }
        j += 1;
    }
    true
}

/// Whether the needle, taken verbatim, occurs anywhere in the
/// ASCII-lower-cased haystack.
pub fn str_contains_lowered(hay: &str, needle: &str) -> (r: bool)
    ensures
        r == contains_lowered(hay@, needle@),
{
    let hn = hay.unicode_len();
    let nn = needle.unicode_len();
    if nn > hn {
        return false;
    }
    let mut i: usize = 0;
    while i <= hn - nn
        invariant
            hn == hay@.len(),
            nn == needle@.len(),
            nn <= hn,
            i <= hn - nn + 1,
            forall|k: int| 0 <= k < i ==> !#[trigger] matches_lowered_at(hay@, needle@, k),
        decreases hn - nn + 1 - i,
    {
        if matches_at(hay, needle, i, hn, nn) {
            return true;
        }
        i += 1;
    }
    false
}

} // verus!
