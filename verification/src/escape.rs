//! Escaping of untrusted paths for safe embedding inside a double-quoted
//! shell string literal.

use vstd::prelude::*;
use vstd::string::StrSliceExecFns;

verus! {

/// The four characters that keep a special meaning inside a double-quoted
/// shell string and must therefore be neutralized.
pub open spec fn needs_escape(c: char) -> bool {
    c == '\\' || c == '"' || c == '$' || c == '`'
}

/// How a single character is rendered: special characters gain a leading
/// backslash, all others pass through unchanged.
pub open spec fn escape_char(c: char) -> Seq<char> {
    if needs_escape(c) {
        seq!['\\', c]
    } else {
        seq![c]
    }
}

/// The escaped form of a whole string.
pub open spec fn escaped(s: Seq<char>) -> Seq<char>
    decreases s.len(),
{
    if s.len() == 0 {
        Seq::empty()
    } else {
        escape_char(s[0]) + escaped(s.skip(1))
    }
}

/// Reading left to right, every backslash opens a two-character escape
/// whose payload is one of the special characters, and no special
/// character occurs outside such a pair.
pub open spec fn well_escaped(t: Seq<char>) -> bool
    decreases t.len(),
{
    if t.len() == 0 {
        true
    } else if t[0] == '\\' {
        t.len() >= 2 && needs_escape(t[1]) && well_escaped(t.skip(2))
    } else {
        !needs_escape(t[0]) && well_escaped(t.skip(1))
    }
}

/// The semantic reverse of `escaped`: drops the backslash in front of each
/// escaped character.
pub open spec fn unescaped(t: Seq<char>) -> Seq<char>
    decreases t.len(),
{
    if t.len() == 0 {
        Seq::empty()
    } else if t[0] == '\\' && t.len() >= 2 {
        seq![t[1]] + unescaped(t.skip(2))
    } else {
        seq![t[0]] + unescaped(t.skip(1))
    }
}

proof fn lemma_escaped_append(a: Seq<char>, b: Seq<char>)
    ensures
        escaped(a + b) == escaped(a) + escaped(b),
    decreases a.len(),
{
    if a.len() == 0 {
        assert(a + b =~= b);
        assert(escaped(a) + escaped(b) =~= escaped(b));
    } else {
        assert((a + b).skip(1) =~= a.skip(1) + b);
        lemma_escaped_append(a.skip(1), b);
        assert(escaped(a + b) =~= escaped(a) + escaped(b));
    }
}

proof fn lemma_escaped_snoc(s: Seq<char>, i: int)
    requires
        0 <= i < s.len(),
    ensures
        escaped(s.take(i + 1)) == escaped(s.take(i)) + escape_char(s[i]),
{
    let single = seq![s[i]];
    assert(s.take(i + 1) =~= s.take(i) + single);
    lemma_escaped_append(s.take(i), single);
    assert(single.skip(1) =~= Seq::<char>::empty());
    assert(escaped(Seq::<char>::empty()) == Seq::<char>::empty());
    assert(escaped(single) == escape_char(single[0]) + escaped(single.skip(1)));
    assert(escape_char(s[i]) + Seq::<char>::empty() =~= escape_char(s[i]));
}

/// Escaping is reversible (no information is lost), and its output never
/// holds an unescaped special character.
pub proof fn lemma_escape_round_trip(s: Seq<char>)
    ensures
        unescaped(escaped(s)) == s,
        well_escaped(escaped(s)),
    decreases s.len(),
{
    if s.len() == 0 {
        assert(unescaped(escaped(s)) =~= s);
    } else {
        lemma_escape_round_trip(s.skip(1));
        let e = escaped(s);
        if needs_escape(s[0]) {
            assert(e =~= seq!['\\', s[0]] + escaped(s.skip(1)));
            assert(e[0] == '\\' && e.len() >= 2 && e[1] == s[0]);
            assert(e.skip(2) =~= escaped(s.skip(1)));
            assert(unescaped(e) =~= seq![s[0]] + s.skip(1));
            assert(seq![s[0]] + s.skip(1) =~= s);
        } else {
            assert(e =~= seq![s[0]] + escaped(s.skip(1)));
            assert(e[0] == s[0] && e[0] != '\\');
            assert(e.skip(1) =~= escaped(s.skip(1)));
            assert(unescaped(e) =~= seq![s[0]] + s.skip(1));
            assert(seq![s[0]] + s.skip(1) =~= s);
        }
    }
}

/// Relies on String::push from std: appends exactly one character.
#[verifier::external_body]
pub(crate) fn push_char(s: &mut String, c: char)
    ensures
        final(s)@ == old(s)@.push(c),
{
    s.push(c);
}

/// Prefixes every backslash, double quote, dollar sign and backtick with a
/// backslash, so the result can stand inside a double-quoted shell string.
pub fn escape_for_double_quotes(value: &str) -> (r: String)
    ensures
        r@ == escaped(value@),
{
    let len = value.unicode_len();
    let mut r = String::new();
    let mut i: usize = 0;
    while i < len
        invariant
            len == value@.len(),
            i <= len,
            r@ == escaped(value@.take(i as int)),
        decreases len - i,
    {
        let c = value.get_char(i);
        proof {
            lemma_escaped_snoc(value@, i as int);
        }
        if c == '\\' || c == '"' || c == '$' || c == '`' {
            push_char(&mut r, '\\');
        }
        push_char(&mut r, c);
        proof {
            assert(r@ =~= escaped(value@.take(i as int)) + escape_char(value@[i as int]));
        }
        i = i + 1;
    }
    proof {
        assert(value@.take(len as int) =~= value@);
    }
    r
}

/// Removes the backslash in front of each escaped character; the exact
/// semantic reverse of `escape_for_double_quotes`.
pub fn unescape_double_quotes(s: &str) -> (r: String)
    ensures
        r@ == unescaped(s@),
{
    let len = s.unicode_len();
    let mut r = String::new();
    let mut i: usize = 0;
    proof {
        assert(s@.skip(0) =~= s@);
        assert(r@ + unescaped(s@) =~= unescaped(s@));
    }
    while i < len
        invariant
            len == s@.len(),
            i <= len,
            unescaped(s@) == r@ + unescaped(s@.skip(i as int)),
        decreases len - i,
    {
        let ghost rest = s@.skip(i as int);
        let c = s.get_char(i);
        proof {
            assert(rest[0] == s@[i as int]);
        }
        if c == '\\' && i + 1 < len {
            let c2 = s.get_char(i + 1);
            proof {
                assert(rest[1] == s@[i + 1]);
                assert(rest.skip(2) =~= s@.skip(i + 2));
                assert(unescaped(rest) =~= seq![rest[1]] + unescaped(rest.skip(2)));
            }
            push_char(&mut r, c2);
            i = i + 2;
        } else {
            proof {
                assert(rest.skip(1) =~= s@.skip(i + 1));
                assert(unescaped(rest) =~= seq![rest[0]] + unescaped(rest.skip(1)));
            }
            push_char(&mut r, c);
            i = i + 1;
        }
        proof {
            assert(unescaped(s@) =~= r@ + unescaped(s@.skip(i as int)));
        }
    }
    proof {
        assert(s@.skip(len as int) =~= Seq::<char>::empty());
    }
    r
}

} // verus!
