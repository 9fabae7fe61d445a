//! A minimal string model of filesystem paths: joining with `/`, the
//! parent directory, the file name, and ASCII-case-insensitive comparison
//! of file names.

use vstd::prelude::*;
use vstd::string::StrSliceExecFns;
use vstd::string::StringExecFns;

verus! {

/// Joining two path fragments inserts exactly one separator.
pub open spec fn join_view(a: Seq<char>, b: Seq<char>) -> Seq<char> {
    a + seq!['/'] + b
}

/// Index of the last separator, or -1 when the path holds none.
pub open spec fn last_slash(s: Seq<char>) -> int
    decreases s.len(),
{
    if s.len() == 0 {
        -1
    } else if s[s.len() - 1] == '/' {
        s.len() - 1
    } else {
        last_slash(s.drop_last())
    }
}

/// The directory part of a path: everything before the last separator.
/// A path without a separator has no parent in this model.
pub open spec fn parent_view(s: Seq<char>) -> Option<Seq<char>> {
    if last_slash(s) >= 0 {
        Some(s.take(last_slash(s)))
    } else {
        None
    }
}

/// The file-name part of a path: everything after the last separator, or
/// the whole path when it holds none.
pub open spec fn file_name_view(s: Seq<char>) -> Seq<char> {
    s.skip(last_slash(s) + 1)
}

pub proof fn lemma_last_slash(s: Seq<char>)
    ensures
        -1 <= last_slash(s) < s.len(),
        last_slash(s) >= 0 ==> s[last_slash(s)] == '/',
        forall|j: int| last_slash(s) < j < s.len() ==> s[j] != '/',
        forall|k: int| 0 <= k < s.len() && s[k] == '/' ==> last_slash(s) >= k,
    decreases s.len(),
{
    if s.len() == 0 {
    } else if s[s.len() - 1] == '/' {
    } else {
        lemma_last_slash(s.drop_last());
        assert forall|j: int| last_slash(s) < j < s.len() implies s[j] != '/' by {
            if j < s.len() - 1 {
                assert(s.drop_last()[j] == s[j]);
            }
        }
        assert forall|k: int| 0 <= k < s.len() && s[k] == '/' implies last_slash(s) >= k by {
            assert(k < s.len() - 1);
            assert(s.drop_last()[k] == s[k]);
        }
    }
}

/// Appends `/` and a further fragment to a path.
pub fn path_join(a: &str, b: &str) -> (r: String)
    ensures
        r@ == join_view(a@, b@),
{
    let mut r = a.to_owned();
    r.append("/");
    r.append(b);
    proof {
        reveal_strlit("/");
        assert("/"@ =~= seq!['/']);
        assert(r@ =~= join_view(a@, b@));
    }
    r
}

/// Scans a path from the end for its last separator; returns one past its
/// index, or zero when the path holds none.
fn after_last_slash(s: &str) -> (r: usize)
    ensures
        r == last_slash(s@) + 1,
{
    let len = s.unicode_len();
    let mut i: usize = len;
    while i > 0
        invariant
            i <= len,
            len == s@.len(),
            forall|j: int| i <= j < len ==> s@[j] != '/',
        decreases i,
    {
        if s.get_char(i - 1) == '/' {
            proof {
                lemma_last_slash(s@);
            }
            return i;
        }
        i = i - 1;
    }
    proof {
        lemma_last_slash(s@);
    }
    0
}

/// The directory holding the named file, or `None` for a bare name.
pub fn path_parent(s: &str) -> (r: Option<String>)
    ensures
        r is Some <==> parent_view(s@) is Some,
        r matches Some(p) ==> parent_view(s@) == Some(p@),
{
    let cut = after_last_slash(s);
    proof {
        lemma_last_slash(s@);
    }
    if cut == 0 {
        None
    } else {
        let sub = s.substring_char(0, cut - 1);
        Some(sub.to_owned())
    }
}

/// The file-name part of a path.
pub fn path_file_name(s: &str) -> (r: String)
    ensures
        r@ == file_name_view(s@),
{
    let cut = after_last_slash(s);
    proof {
        lemma_last_slash(s@);
    }
    let len = s.unicode_len();
    let sub = s.substring_char(cut, len);
    sub.to_owned()
}

/// Two characters agree up to ASCII case.
pub open spec fn chars_eq_ignore_ascii_case(a: char, b: char) -> bool {
    a == b || (('A' <= a && a <= 'Z') && b as u32 == a as u32 + 32) || (('A' <= b && b <= 'Z')
        && a as u32 == b as u32 + 32)
}

/// Two strings agree character by character up to ASCII case.
pub open spec fn eq_ignore_case_view(a: Seq<char>, b: Seq<char>) -> bool {
    a.len() == b.len() && forall|i: int|
        0 <= i < a.len() ==> chars_eq_ignore_ascii_case(a[i], b[i])
}

/// Case-insensitive (ASCII only) comparison of two strings.
pub fn eq_ignore_ascii_case(a: &str, b: &str) -> (r: bool)
    ensures
        r == eq_ignore_case_view(a@, b@),
{
    let alen = a.unicode_len();
    let blen = b.unicode_len();
    if alen != blen {
        return false;
    }
    let mut i: usize = 0;
    while i < alen
        invariant
            i <= alen,
            alen == a@.len(),
            alen == b@.len(),
            forall|j: int| 0 <= j < i ==> chars_eq_ignore_ascii_case(a@[j], b@[j]),
        decreases alen - i,
    {
        let ca = a.get_char(i);
        let cb = b.get_char(i);
        let ua = ca as u32;
        let ub = cb as u32;
        let same = ua == ub || (65 <= ua && ua <= 90 && ub == ua + 32) || (65 <= ub && ub <= 90
            && ua == ub + 32);
        proof {
            assert(('A' <= ca && ca <= 'Z') == (65 <= ua && ua <= 90));
            assert(('A' <= cb && cb <= 'Z') == (65 <= ub && ub <= 90));
        }
        if !same {
            return false;
        }
        i = i + 1;
    }
    true
}

} // verus!
