//! Generation of the wrapper script: a fixed shell template around the
//! escaped preferred binary path and the platform's fallback locations.

use vstd::prelude::*;
use vstd::string::StringExecFns;

use crate::profile::PlatformProfile;
use crate::profile::views;

verus! {

/// The wrapper's first line: the shebang naming the target interpreter.
pub open spec fn wrapper_shebang() -> Seq<char> {
    "#!/bin/bash\n"@
}

/// From strict-mode setup through the override check up to the opening
/// quote of the first candidate.
pub open spec fn wrapper_preamble() -> Seq<char> {
    "set -euo pipefail\n\nif [[ -n \"${KAKU_BIN:-}\" && -x \"${KAKU_BIN}\" ]]; then\n\texec \"${KAKU_BIN}\" \"$@\"\nfi\n\nfor candidate in \\\n\t\""@
}

/// One further candidate entry: closing quote, line continuation, opening
/// quote of the next entry.
pub open spec fn wrapper_line_sep() -> Seq<char> {
    "\" \\\n\t\""@
}

/// The fallback entries, each preceded by the separator.
pub open spec fn wrapper_lines_view(lines: Seq<Seq<char>>) -> Seq<char>
    decreases lines.len(),
{
    if lines.len() == 0 {
        Seq::empty()
    } else {
        wrapper_line_sep() + lines[0] + wrapper_lines_view(lines.skip(1))
    }
}

/// From the close of the candidate list through the loop body up to the
/// opening quote of the diagnostic.
pub open spec fn wrapper_loop_body() -> Seq<char> {
    "\"; do\n\tif [[ -n \"$candidate\" && -x \"$candidate\" ]]; then\n\t\texec \"$candidate\" \"$@\"\n\tfi\ndone\n\necho \""@
}

/// Close of the diagnostic, redirected to the error stream.
pub open spec fn wrapper_stderr_redirect() -> Seq<char> {
    "\" >&2\n"@
}

/// The terminal line: exit with the POSIX command-not-found status.
pub open spec fn wrapper_exit_line() -> Seq<char> {
    "exit 127\n"@
}

/// The whole wrapper script for a given (already escaped) preferred binary
/// path, fallback entries and diagnostic message.
pub open spec fn wrapper_script_view(
    preferred: Seq<char>,
    lines: Seq<Seq<char>>,
    msg: Seq<char>,
) -> Seq<char> {
    wrapper_shebang() + wrapper_preamble() + preferred + wrapper_lines_view(lines)
        + wrapper_loop_body() + msg + wrapper_stderr_redirect() + wrapper_exit_line()
}

proof fn lemma_wrapper_lines_append(a: Seq<Seq<char>>, b: Seq<Seq<char>>)
    ensures
        wrapper_lines_view(a + b) == wrapper_lines_view(a) + wrapper_lines_view(b),
    decreases a.len(),
{
    if a.len() == 0 {
        assert(a + b =~= b);
        assert(wrapper_lines_view(a) + wrapper_lines_view(b) =~= wrapper_lines_view(b));
    } else {
        assert((a + b).skip(1) =~= a.skip(1) + b);
        lemma_wrapper_lines_append(a.skip(1), b);
        assert(wrapper_lines_view(a + b) =~= wrapper_lines_view(a) + wrapper_lines_view(b));
    }
}

proof fn lemma_wrapper_lines_snoc(lines: Seq<Seq<char>>, i: int)
    requires
        0 <= i < lines.len(),
    ensures
        wrapper_lines_view(lines.take(i + 1)) == wrapper_lines_view(lines.take(i))
            + wrapper_line_sep() + lines[i],
{
    let single = seq![lines[i]];
    assert(lines.take(i + 1) =~= lines.take(i) + single);
    lemma_wrapper_lines_append(lines.take(i), single);
    assert(single.skip(1) =~= Seq::<Seq<char>>::empty());
    assert(wrapper_lines_view(Seq::<Seq<char>>::empty()) == Seq::<char>::empty());
    assert(wrapper_lines_view(single) == wrapper_line_sep() + single[0] + wrapper_lines_view(
        single.skip(1),
    ));
    assert(wrapper_lines_view(single) =~= wrapper_line_sep() + lines[i]);
}

/// Renders the wrapper script around the given preferred binary path,
/// which the caller has already escaped for a double-quoted context.
pub fn generate_wrapper_script(preferred_bin: &str, profile: &PlatformProfile) -> (r: String)
    ensures
        r@ == wrapper_script_view(
            preferred_bin@,
            views(profile.wrapper_fallback_lines@),
            profile.missing_message@,
        ),
{
    let ghost all_lines = views(profile.wrapper_fallback_lines@);
    let mut r = String::from_str("#!/bin/bash\n");
    r.append(
        "set -euo pipefail\n\nif [[ -n \"${KAKU_BIN:-}\" && -x \"${KAKU_BIN}\" ]]; then\n\texec \"${KAKU_BIN}\" \"$@\"\nfi\n\nfor candidate in \\\n\t\"",
    );
    r.append(preferred_bin);
    let mut i: usize = 0;
    while i < profile.wrapper_fallback_lines.len()
        invariant
            i <= profile.wrapper_fallback_lines.len(),
            all_lines == views(profile.wrapper_fallback_lines@),
            all_lines.len() == profile.wrapper_fallback_lines@.len(),
            r@ == wrapper_shebang() + wrapper_preamble() + preferred_bin@ + wrapper_lines_view(
                all_lines.take(i as int),
            ),
        decreases profile.wrapper_fallback_lines.len() - i,
    {
        proof {
            lemma_wrapper_lines_snoc(all_lines, i as int);
        }
        r.append("\" \\\n\t\"");
        r.append(profile.wrapper_fallback_lines[i].as_str());
        proof {
            assert(all_lines[i as int] == profile.wrapper_fallback_lines@[i as int]@);
        }
        i = i + 1;
    }
    proof {
        assert(all_lines.take(all_lines.len() as int) =~= all_lines);
    }
    r.append(
        "\"; do\n\tif [[ -n \"$candidate\" && -x \"$candidate\" ]]; then\n\t\texec \"$candidate\" \"$@\"\n\tfi\ndone\n\necho \"",
    );
    r.append(profile.missing_message.as_str());
    r.append("\" >&2\n");
    r.append("exit 127\n");
    r
}

/// `pattern` occurs somewhere inside `t`.
pub open spec fn is_substring(t: Seq<char>, pattern: Seq<char>) -> bool {
    exists|i: int|
        0 <= i && i + pattern.len() <= t.len() && #[trigger] t.subrange(i, i + pattern.len())
            == pattern
}

/// Invariants of every generated wrapper: it starts with the shebang line
/// for the target interpreter, and it holds the terminal path that prints
/// a diagnostic to the error stream and exits with status 127.
pub proof fn lemma_wrapper_script_invariants(
    preferred: Seq<char>,
    lines: Seq<Seq<char>>,
    msg: Seq<char>,
)
    ensures
        wrapper_script_view(preferred, lines, msg).take(wrapper_shebang().len() as int)
            == wrapper_shebang(),
        is_substring(wrapper_script_view(preferred, lines, msg), "exit 127\n"@),
        is_substring(wrapper_script_view(preferred, lines, msg), ">&2"@),
{
    let t = wrapper_script_view(preferred, lines, msg);
    assert(t.take(wrapper_shebang().len() as int) =~= wrapper_shebang());
    let exit = "exit 127\n"@;
    assert(exit == wrapper_exit_line());
    let i = t.len() - exit.len();
    assert(t.subrange(i, i + exit.len()) =~= exit);
    let redirect = wrapper_stderr_redirect();
    reveal_strlit("\" >&2\n");
    reveal_strlit(">&2");
    let j = t.len() - wrapper_exit_line().len() - redirect.len() + 2;
    assert(t.subrange(j, j + ">&2"@.len()) =~= ">&2"@);
}

/// The preferred binary path is embedded verbatim into the generated
/// script, right after the opening quote of the candidate list.
pub proof fn lemma_preferred_embedded(preferred: Seq<char>, lines: Seq<Seq<char>>, msg: Seq<char>)
    ensures
        is_substring(wrapper_script_view(preferred, lines, msg), preferred),
{
    let t = wrapper_script_view(preferred, lines, msg);
    let i = wrapper_shebang().len() + wrapper_preamble().len();
    assert(t.subrange(i as int, i + preferred.len() as int) =~= preferred);
}

} // verus!
