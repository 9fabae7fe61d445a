//! Per-platform data: candidate locations for the real application binary
//! and the bundled setup script, the default fallback binary, and the
//! pieces of the wrapper-script template that differ between platforms.
//! The profile is a plain value selected once at startup, so every
//! platform's behaviour can be exercised with an injected profile.

use vstd::prelude::*;
use vstd::string::StringExecFns;

use crate::paths::join_view;

verus! {

#[derive(Clone, Copy, PartialEq, Eq, Structural, Debug)]
pub enum Platform {
    Macos,
    Linux,
}

/// Everything `init` needs to know about one platform.
pub struct PlatformProfile {
    /// Expected file name of the application binary, compared to the
    /// running executable's name without regard to ASCII case.
    pub app_name: String,
    /// Fixed install locations for the binary, in priority order.
    pub binary_candidates: Vec<String>,
    /// Path embedded into the wrapper when no real binary was found.
    pub default_binary: String,
    /// Fixed well-known locations for the setup script, in priority order.
    pub script_candidates: Vec<String>,
    /// Whether the install prefix derived from the running executable
    /// contributes a further setup-script candidate.
    pub script_prefix_share: bool,
    /// Fallback entries of the generated wrapper's candidate loop, written
    /// as shell text (they may name `$HOME`, expanded at run time).
    pub wrapper_fallback_lines: Vec<String>,
    /// Diagnostic the wrapper prints when no candidate is executable.
    pub missing_message: String,
}

/// The views of a vector of strings.
pub open spec fn views(v: Seq<String>) -> Seq<Seq<char>> {
    v.map_values(|s: String| s@)
}

pub proof fn lemma_views_push(prev: Seq<String>, x: String)
    ensures
        views(prev.push(x)) == views(prev).push(x@),
{
    let all = prev.push(x);
    assert forall|j: int| 0 <= j < all.len() implies #[trigger] views(all)[j] == views(
        prev,
    ).push(x@)[j] by {
        if j < prev.len() {
            assert(all[j] == prev[j]);
        } else {
            assert(all[j] == x);
        }
    }
    assert(views(all) =~= views(prev).push(x@));
}

pub open spec fn macos_binary_candidate_views(home: Seq<char>) -> Seq<Seq<char>> {
    seq![
        "/Applications/Kaku.app/Contents/MacOS/kaku"@,
        join_view(home, "Applications/Kaku.app/Contents/MacOS/kaku"@),
    ]
}

pub open spec fn linux_binary_candidate_views(home: Seq<char>) -> Seq<Seq<char>> {
    seq![
        "/usr/local/bin/kaku"@,
        "/usr/bin/kaku"@,
        join_view(home, ".local/bin/kaku"@),
    ]
}

pub open spec fn macos_script_candidate_views(home: Seq<char>) -> Seq<Seq<char>> {
    seq![
        "/Applications/Kaku.app/Contents/Resources/setup_zsh.sh"@,
        join_view(home, "Applications/Kaku.app/Contents/Resources/setup_zsh.sh"@),
    ]
}

pub open spec fn linux_script_candidate_views(home: Seq<char>) -> Seq<Seq<char>> {
    seq![
        "/usr/share/kaku/setup_zsh.sh"@,
        "/usr/local/share/kaku/setup_zsh.sh"@,
        join_view(home, ".local/share/kaku/setup_zsh.sh"@),
    ]
}

pub open spec fn macos_wrapper_line_views() -> Seq<Seq<char>> {
    seq![
        "/Applications/Kaku.app/Contents/MacOS/kaku"@,
        "$HOME/Applications/Kaku.app/Contents/MacOS/kaku"@,
    ]
}

pub open spec fn linux_wrapper_line_views() -> Seq<Seq<char>> {
    seq![
        "/usr/local/bin/kaku"@,
        "/usr/bin/kaku"@,
        "$HOME/.local/bin/kaku"@,
    ]
}

pub open spec fn default_binary_view(p: Platform) -> Seq<char> {
    match p {
        Platform::Macos => "/Applications/Kaku.app/Contents/MacOS/kaku"@,
        Platform::Linux => "/usr/local/bin/kaku"@,
    }
}

pub open spec fn missing_message_view(p: Platform) -> Seq<char> {
    match p {
        Platform::Macos => "kaku: Kaku.app not found. Expected /Applications/Kaku.app."@,
        Platform::Linux => "kaku: kaku binary not found. Please ensure kaku is installed."@,
    }
}

/// What a well-built profile for the given platform and home directory
/// holds, field by field.
pub open spec fn is_profile_for(r: PlatformProfile, p: Platform, home: Seq<char>) -> bool {
    &&& r.app_name@ == "kaku"@
    &&& views(r.binary_candidates@) == (match p {
        Platform::Macos => macos_binary_candidate_views(home),
        Platform::Linux => linux_binary_candidate_views(home),
    })
    &&& r.default_binary@ == default_binary_view(p)
    &&& views(r.script_candidates@) == (match p {
        Platform::Macos => macos_script_candidate_views(home),
        Platform::Linux => linux_script_candidate_views(home),
    })
    &&& r.script_prefix_share == (p is Linux)
    &&& views(r.wrapper_fallback_lines@) == (match p {
        Platform::Macos => macos_wrapper_line_views(),
        Platform::Linux => linux_wrapper_line_views(),
    })
    &&& r.missing_message@ == missing_message_view(p)
}

/// The platform's default fallback binary path, embedded into the wrapper
/// when no real binary exists anywhere.
pub fn get_default_kaku_path(p: Platform) -> (r: String)
    ensures
        r@ == default_binary_view(p),
{
    match p {
        Platform::Macos => String::from_str("/Applications/Kaku.app/Contents/MacOS/kaku"),
        Platform::Linux => String::from_str("/usr/local/bin/kaku"),
    }
}

/// Builds the profile for one platform, with every per-user path rooted at
/// the given home directory.
pub fn platform_profile(p: Platform, home: &str) -> (r: PlatformProfile)
    ensures
        is_profile_for(r, p, home@),
{
    match p {
        Platform::Macos => {
            let mut binary_candidates: Vec<String> = Vec::new();
            binary_candidates.push(String::from_str("/Applications/Kaku.app/Contents/MacOS/kaku"));
            binary_candidates.push(
                crate::paths::path_join(home, "Applications/Kaku.app/Contents/MacOS/kaku"),
            );
            let mut script_candidates: Vec<String> = Vec::new();
            script_candidates.push(
                String::from_str("/Applications/Kaku.app/Contents/Resources/setup_zsh.sh"),
            );
            script_candidates.push(
                crate::paths::path_join(home, "Applications/Kaku.app/Contents/Resources/setup_zsh.sh"),
            );
            let mut wrapper_fallback_lines: Vec<String> = Vec::new();
            wrapper_fallback_lines.push(
                String::from_str("/Applications/Kaku.app/Contents/MacOS/kaku"),
            );
            wrapper_fallback_lines.push(
                String::from_str("$HOME/Applications/Kaku.app/Contents/MacOS/kaku"),
            );
            let r = PlatformProfile {
                app_name: String::from_str("kaku"),
                binary_candidates,
                default_binary: String::from_str("/Applications/Kaku.app/Contents/MacOS/kaku"),
                script_candidates,
                script_prefix_share: false,
                wrapper_fallback_lines,
                missing_message: String::from_str(
                    "kaku: Kaku.app not found. Expected /Applications/Kaku.app.",
                ),
            };
            proof {
                assert(views(r.binary_candidates@) =~= macos_binary_candidate_views(home@));
                assert(views(r.script_candidates@) =~= macos_script_candidate_views(home@));
                assert(views(r.wrapper_fallback_lines@) =~= macos_wrapper_line_views());
            }
            r
        },
        Platform::Linux => {
            let mut binary_candidates: Vec<String> = Vec::new();
            binary_candidates.push(String::from_str("/usr/local/bin/kaku"));
            binary_candidates.push(String::from_str("/usr/bin/kaku"));
            binary_candidates.push(crate::paths::path_join(home, ".local/bin/kaku"));
            let mut script_candidates: Vec<String> = Vec::new();
            script_candidates.push(String::from_str("/usr/share/kaku/setup_zsh.sh"));
            script_candidates.push(String::from_str("/usr/local/share/kaku/setup_zsh.sh"));
            script_candidates.push(crate::paths::path_join(home, ".local/share/kaku/setup_zsh.sh"));
            let mut wrapper_fallback_lines: Vec<String> = Vec::new();
            wrapper_fallback_lines.push(String::from_str("/usr/local/bin/kaku"));
            wrapper_fallback_lines.push(String::from_str("/usr/bin/kaku"));
            wrapper_fallback_lines.push(String::from_str("$HOME/.local/bin/kaku"));
            let r = PlatformProfile {
                app_name: String::from_str("kaku"),
                binary_candidates,
                default_binary: String::from_str("/usr/local/bin/kaku"),
                script_candidates,
                script_prefix_share: true,
                wrapper_fallback_lines,
                missing_message: String::from_str(
                    "kaku: kaku binary not found. Please ensure kaku is installed.",
                ),
            };
            proof {
                assert(views(r.binary_candidates@) =~= linux_binary_candidate_views(home@));
                assert(views(r.script_candidates@) =~= linux_script_candidate_views(home@));
                assert(views(r.wrapper_fallback_lines@) =~= linux_wrapper_line_views());
            }
            r
        },
    }
}

} // verus!
