//! The idempotent wrapper-installation protocol, expressed as a plan: a
//! pure value saying where the wrapper lives, what it holds, which
//! permission bits it gets, and whether a stale symlink must go first.
//! The surrounding binary carries the plan out with plain filesystem
//! calls, in the plan's order.

use vstd::prelude::*;

use crate::escape::escape_for_double_quotes;
use crate::escape::escaped;
use crate::paths::join_view;
use crate::paths::last_slash;
use crate::paths::lemma_last_slash;
use crate::paths::parent_view;
use crate::paths::path_join;
use crate::profile::PlatformProfile;
use crate::profile::views;
use crate::resolve::opt_view;
use crate::script::generate_wrapper_script;
use crate::script::wrapper_script_view;

verus! {

/// The per-user directory that holds the wrapper.
pub open spec fn wrapper_dir_view(home: Seq<char>) -> Seq<char> {
    join_view(home, ".config/kaku/zsh/bin"@)
}

/// The fixed per-user path of the wrapper itself.
pub open spec fn wrapper_path_view(home: Seq<char>) -> Seq<char> {
    join_view(wrapper_dir_view(home), "kaku"@)
}

/// The wrapper's directory is exactly the parent of the wrapper's path.
pub proof fn lemma_wrapper_dir_is_parent(home: Seq<char>)
    ensures
        parent_view(wrapper_path_view(home)) == Some(wrapper_dir_view(home)),
{
    let d = wrapper_dir_view(home);
    let s = wrapper_path_view(home);
    reveal_strlit("kaku");
    assert(s[d.len() as int] == '/');
    assert forall|j: int| d.len() < j < s.len() implies s[j] != '/' by {
        assert(s[j] == "kaku"@[j - d.len() - 1]);
    }
    lemma_last_slash(s);
    assert(last_slash(s) == d.len());
    assert(s.take(d.len() as int) =~= d);
}

/// The wrapper's fixed per-user install path under the given home
/// directory.
pub fn wrapper_path(home: &str) -> (r: String)
    ensures
        r@ == wrapper_path_view(home@),
{
    let dir = path_join(home, ".config/kaku/zsh/bin");
    path_join(dir.as_str(), "kaku")
}

/// Everything a single install does, as a value.
pub struct InstallPlan {
    /// Directory to create (with the whole missing chain) before writing.
    pub directory: String,
    /// Where the wrapper is written.
    pub path: String,
    /// The full generated wrapper text.
    pub content: String,
    /// Permission bits set on the written file.
    pub mode: u32,
    /// Whether a pre-existing symbolic link at the target must be removed
    /// before writing, so the write never follows a stale link.
    pub remove_existing_first: bool,
}

/// The binary path the wrapper prefers: the resolved one, or the
/// platform's optimistic default when nothing was found.
pub open spec fn preferred_bin_view(resolved: Option<Seq<char>>, default_bin: Seq<char>) -> Seq<
    char,
> {
    match resolved {
        Some(p) => p,
        None => default_bin,
    }
}

/// What a correct install plan holds, field by field: the fixed per-user
/// target, the generated script around the escaped preferred binary path,
/// owner-executable permissions, and symlink removal exactly when the
/// target is currently a symbolic link.
pub open spec fn is_plan_for(
    plan: InstallPlan,
    home: Seq<char>,
    resolved: Option<Seq<char>>,
    fallback_lines: Seq<Seq<char>>,
    default_bin: Seq<char>,
    msg: Seq<char>,
    target_is_symlink: bool,
) -> bool {
    &&& plan.directory@ == wrapper_dir_view(home)
    &&& plan.path@ == wrapper_path_view(home)
    &&& plan.content@ == wrapper_script_view(
        escaped(preferred_bin_view(resolved, default_bin)),
        fallback_lines,
        msg,
    )
    &&& plan.mode == 0o755u32
    &&& plan.remove_existing_first == target_is_symlink
}

/// Builds the install plan for one run of `init`.
pub fn install_plan(
    home: &str,
    resolved_bin: &Option<String>,
    profile: &PlatformProfile,
    target_is_symlink: bool,
) -> (r: InstallPlan)
    ensures
        is_plan_for(
            r,
            home@,
            opt_view(*resolved_bin),
            views(profile.wrapper_fallback_lines@),
            profile.default_binary@,
            profile.missing_message@,
            target_is_symlink,
        ),
{
    let preferred = match resolved_bin {
        Some(p) => p.clone(),
        None => profile.default_binary.clone(),
    };
    let escaped_bin = escape_for_double_quotes(preferred.as_str());
    let content = generate_wrapper_script(escaped_bin.as_str(), profile);
    let directory = path_join(home, ".config/kaku/zsh/bin");
    let path = path_join(directory.as_str(), "kaku");
    InstallPlan { directory, path, content, mode: 0o755u32, remove_existing_first: target_is_symlink }
}

/// Idempotence of installation: two installs with the same home, the same
/// resolved binary path and the same profile plan byte-identical content,
/// the same target and the same permission bits, whatever each run found
/// at the target beforehand.
pub proof fn lemma_install_idempotent(
    p1: InstallPlan,
    p2: InstallPlan,
    home: Seq<char>,
    resolved: Option<Seq<char>>,
    fallback_lines: Seq<Seq<char>>,
    default_bin: Seq<char>,
    msg: Seq<char>,
    s1: bool,
    s2: bool,
)
    requires
        is_plan_for(p1, home, resolved, fallback_lines, default_bin, msg, s1),
        is_plan_for(p2, home, resolved, fallback_lines, default_bin, msg, s2),
    ensures
        p1.content@ == p2.content@,
        p1.path@ == p2.path@,
        p1.directory@ == p2.directory@,
        p1.mode == p2.mode,
{
}

} // verus!
