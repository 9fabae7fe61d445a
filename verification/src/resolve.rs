//! Ordered candidate lists for the real application binary and for the
//! setup script, and the selection of the earliest existing entry.
//!
//! The library builds the lists and picks; the surrounding binary answers
//! the one question the library cannot: whether a path exists on disk.

use vstd::prelude::*;

use crate::paths::eq_ignore_ascii_case;
use crate::paths::eq_ignore_case_view;
use crate::paths::file_name_view;
use crate::paths::join_view;
use crate::paths::parent_view;
use crate::paths::path_file_name;
use crate::paths::path_join;
use crate::paths::path_parent;
use crate::profile::PlatformProfile;
use crate::profile::views;

verus! {

pub open spec fn opt_view(o: Option<String>) -> Option<Seq<char>> {
    match o {
        Some(s) => Some(s@),
        None => None,
    }
}

/// Index of the earliest `true`, or `None` when there is none.
pub open spec fn first_true(ex: Seq<bool>) -> Option<int>
    decreases ex.len(),
{
    if ex.len() == 0 {
        None
    } else if ex[0] {
        Some(0int)
    } else {
        match first_true(ex.skip(1)) {
            Some(i) => Some(i + 1),
            None => None,
        }
    }
}

pub proof fn lemma_first_true(ex: Seq<bool>)
    ensures
        match first_true(ex) {
            Some(i) => 0 <= i < ex.len() && ex[i] && forall|j: int| 0 <= j < i ==> !ex[j],
            None => forall|j: int| 0 <= j < ex.len() ==> !ex[j],
        },
    decreases ex.len(),
{
    if ex.len() == 0 {
    } else if ex[0] {
    } else {
        lemma_first_true(ex.skip(1));
        match first_true(ex.skip(1)) {
            Some(i) => {
                assert(ex.skip(1)[i] == ex[i + 1]);
                assert forall|j: int| 0 <= j < i + 1 implies !ex[j] by {
                    if j > 0 {
                        assert(ex.skip(1)[j - 1] == ex[j]);
                    }
                }
            },
            None => {
                assert forall|j: int| 0 <= j < ex.len() implies !ex[j] by {
                    if j > 0 {
                        assert(ex.skip(1)[j - 1] == ex[j]);
                    }
                }
            },
        }
    }
}

/// `first_true` is pinned by its characterization: an existing entry with
/// nothing existing before it is the chosen one.
pub proof fn lemma_first_true_unique(ex: Seq<bool>, i: int)
    requires
        0 <= i < ex.len(),
        ex[i],
        forall|j: int| 0 <= j < i ==> !ex[j],
    ensures
        first_true(ex) == Some(i),
{
    lemma_first_true(ex);
}

/// The index of the first existing candidate, if any exists.
pub fn first_existing_index(exists: &Vec<bool>) -> (r: Option<usize>)
    ensures
        first_true(exists@) == (match r {
            Some(i) => Some(i as int),
            None => None::<int>,
        }),
{
    let mut i: usize = 0;
    while i < exists.len()
        invariant
            i <= exists@.len(),
            forall|j: int| 0 <= j < i ==> !exists@[j],
        decreases exists@.len() - i,
    {
        if exists[i] {
            proof {
                lemma_first_true_unique(exists@, i as int);
            }
            return Some(i);
        }
        i = i + 1;
    }
    proof {
        lemma_first_true(exists@);
    }
    None
}

/// The earliest candidate whose existence flag is set. The two vectors
/// run in parallel: `exists[i]` answers for `cands[i]`.
pub fn resolve_first_existing(cands: &Vec<String>, exists: &Vec<bool>) -> (r: Option<String>)
    requires
        cands@.len() == exists@.len(),
    ensures
        (r is None) == (first_true(exists@) is None),
        r matches Some(s) ==> first_true(exists@) matches Some(i) && s@ == cands@[i]@,
{
    match first_existing_index(exists) {
        Some(i) => {
            proof {
                lemma_first_true(exists@);
            }
            Some(cands[i].clone())
        },
        None => None,
    }
}

/// Whether the running executable counts as a binary candidate: its file
/// name equals the expected application name up to ASCII case.
pub open spec fn exe_matches_app(exe: Seq<char>, app_name: Seq<char>) -> bool {
    eq_ignore_case_view(file_name_view(exe), app_name)
}

/// The ordered binary candidates: the override value first, then the
/// running executable when it carries the application's name, then the
/// platform's fixed install locations.
pub open spec fn binary_candidate_views(
    ov: Option<Seq<char>>,
    exe: Option<Seq<char>>,
    app_name: Seq<char>,
    fixed: Seq<Seq<char>>,
) -> Seq<Seq<char>> {
    (match ov {
        Some(p) => seq![p],
        None => Seq::<Seq<char>>::empty(),
    }) + (match exe {
        Some(e) => if exe_matches_app(e, app_name) {
            seq![e]
        } else {
            Seq::<Seq<char>>::empty()
        },
        None => Seq::<Seq<char>>::empty(),
    }) + fixed
}

/// Builds the ordered candidate list for the real application binary.
pub fn binary_candidates(
    override_path: &Option<String>,
    exe_path: &Option<String>,
    profile: &PlatformProfile,
) -> (r: Vec<String>)
    ensures
        views(r@) == binary_candidate_views(
            opt_view(*override_path),
            opt_view(*exe_path),
            profile.app_name@,
            views(profile.binary_candidates@),
        ),
{
    let mut v: Vec<String> = Vec::new();
    if let Some(p) = override_path {
        v.push(p.clone());
    }
    if let Some(e) = exe_path {
        let name = path_file_name(e.as_str());
        if eq_ignore_ascii_case(name.as_str(), profile.app_name.as_str()) {
            v.push(e.clone());
        }
    }
    let ghost head = views(v@);
    proof {
        assert(head =~~= (match opt_view(*override_path) {
            Some(p) => seq![p],
            None => Seq::<Seq<char>>::empty(),
        }) + (match opt_view(*exe_path) {
            Some(e) => if exe_matches_app(e, profile.app_name@) {
                seq![e]
            } else {
                Seq::<Seq<char>>::empty()
            },
            None => Seq::<Seq<char>>::empty(),
        }));
        assert(head + views(profile.binary_candidates@).take(0) =~~= head);
    }
    let mut i: usize = 0;
    while i < profile.binary_candidates.len()
        invariant
            i <= profile.binary_candidates@.len(),
            views(v@) == head + views(profile.binary_candidates@).take(i as int),
        decreases profile.binary_candidates@.len() - i,
    {
        let ghost fixed = views(profile.binary_candidates@);
        let c = profile.binary_candidates[i].clone();
        proof {
            crate::profile::lemma_views_push(v@, c);
            assert(fixed.take(i + 1) =~= fixed.take(i as int).push(fixed[i as int]));
            assert(head + fixed.take(i + 1) =~= (head + fixed.take(i as int)).push(
                fixed[i as int],
            ));
        }
        v.push(c);
        i = i + 1;
    }
    proof {
        assert(views(v@) =~~= binary_candidate_views(
            opt_view(*override_path),
            opt_view(*exe_path),
            profile.app_name@,
            views(profile.binary_candidates@),
        ));
    }
    v
}

/// The parent of the parent of a path: for a running executable, the
/// directory two levels up (the bundle's contents directory, or the
/// install prefix above its `bin` directory).
pub open spec fn grandparent_view(e: Seq<char>) -> Option<Seq<char>> {
    match parent_view(e) {
        Some(p) => parent_view(p),
        None => None,
    }
}

/// The ordered setup-script candidates: the working-directory-relative
/// development path first, then the path in the running executable's
/// resource directory, then (where the platform derives one) the path
/// under the executable's install prefix, then the fixed well-known
/// locations.
pub open spec fn script_candidate_views(
    cwd: Option<Seq<char>>,
    exe: Option<Seq<char>>,
    prefix_share: bool,
    fixed: Seq<Seq<char>>,
) -> Seq<Seq<char>> {
    (match cwd {
        Some(d) => seq![join_view(d, "assets/shell-integration/setup_zsh.sh"@)],
        None => Seq::<Seq<char>>::empty(),
    }) + (match exe {
        Some(e) => match grandparent_view(e) {
            Some(g) => seq![join_view(g, "Resources/setup_zsh.sh"@)],
            None => Seq::<Seq<char>>::empty(),
        },
        None => Seq::<Seq<char>>::empty(),
    }) + (if prefix_share {
        match exe {
            Some(e) => match grandparent_view(e) {
                Some(g) => seq![join_view(g, "share/kaku/setup_zsh.sh"@)],
                None => Seq::<Seq<char>>::empty(),
            },
            None => Seq::<Seq<char>>::empty(),
        }
    } else {
        Seq::<Seq<char>>::empty()
    }) + fixed
}

/// Builds the ordered candidate list for the setup script.
pub fn script_candidates(
    cwd: &Option<String>,
    exe_path: &Option<String>,
    profile: &PlatformProfile,
) -> (r: Vec<String>)
    ensures
        views(r@) == script_candidate_views(
            opt_view(*cwd),
            opt_view(*exe_path),
            profile.script_prefix_share,
            views(profile.script_candidates@),
        ),
{
    let mut v: Vec<String> = Vec::new();
    if let Some(d) = cwd {
        v.push(path_join(d.as_str(), "assets/shell-integration/setup_zsh.sh"));
    }
    if let Some(e) = exe_path {
        let contents = match path_parent(e.as_str()) {
            Some(p) => path_parent(p.as_str()),
            None => None,
        };
        if let Some(g) = contents {
            v.push(path_join(g.as_str(), "Resources/setup_zsh.sh"));
            if profile.script_prefix_share {
                v.push(path_join(g.as_str(), "share/kaku/setup_zsh.sh"));
            }
        }
    }
    let ghost head = views(v@);
    proof {
        assert(head =~~= (match opt_view(*cwd) {
            Some(d) => seq![join_view(d, "assets/shell-integration/setup_zsh.sh"@)],
            None => Seq::<Seq<char>>::empty(),
        }) + (match opt_view(*exe_path) {
            Some(e) => match grandparent_view(e) {
                Some(g) => seq![join_view(g, "Resources/setup_zsh.sh"@)],
                None => Seq::<Seq<char>>::empty(),
            },
            None => Seq::<Seq<char>>::empty(),
        }) + (if profile.script_prefix_share {
            match opt_view(*exe_path) {
                Some(e) => match grandparent_view(e) {
                    Some(g) => seq![join_view(g, "share/kaku/setup_zsh.sh"@)],
                    None => Seq::<Seq<char>>::empty(),
                },
                None => Seq::<Seq<char>>::empty(),
            }
        } else {
            Seq::<Seq<char>>::empty()
        }));
        assert(head + views(profile.script_candidates@).take(0) =~~= head);
    }
    let mut i: usize = 0;
    while i < profile.script_candidates.len()
        invariant
            i <= profile.script_candidates@.len(),
            views(v@) == head + views(profile.script_candidates@).take(i as int),
        decreases profile.script_candidates@.len() - i,
    {
        let ghost fixed = views(profile.script_candidates@);
        let c = profile.script_candidates[i].clone();
        proof {
            crate::profile::lemma_views_push(v@, c);
            assert(fixed.take(i + 1) =~= fixed.take(i as int).push(fixed[i as int]));
            assert(head + fixed.take(i + 1) =~= (head + fixed.take(i as int)).push(
                fixed[i as int],
            ));
        }
        v.push(c);
        i = i + 1;
    }
    proof {
        assert(views(v@) =~~= script_candidate_views(
            opt_view(*cwd),
            opt_view(*exe_path),
            profile.script_prefix_share,
            views(profile.script_candidates@),
        ));
    }
    v
}

/// Resolution priority for the binary: when the override value names an
/// existing file, it is the resolved candidate, ahead of everything else.
pub proof fn lemma_override_priority(
    ov: Seq<char>,
    exe: Option<Seq<char>>,
    app_name: Seq<char>,
    fixed: Seq<Seq<char>>,
    ex: Seq<bool>,
)
    requires
        ex.len() == binary_candidate_views(Some(ov), exe, app_name, fixed).len(),
        ex[0],
    ensures
        first_true(ex) == Some(0int),
        binary_candidate_views(Some(ov), exe, app_name, fixed)[0] == ov,
{
    lemma_first_true_unique(ex, 0);
}

/// Resolution priority for the binary: with no override set, the running
/// executable, when it carries the application's name and exists, is the
/// resolved candidate, ahead of the fixed platform list.
pub proof fn lemma_exe_priority(
    exe: Seq<char>,
    app_name: Seq<char>,
    fixed: Seq<Seq<char>>,
    ex: Seq<bool>,
)
    requires
        exe_matches_app(exe, app_name),
        ex.len() == binary_candidate_views(None, Some(exe), app_name, fixed).len(),
        ex[0],
    ensures
        first_true(ex) == Some(0int),
        binary_candidate_views(None, Some(exe), app_name, fixed)[0] == exe,
{
    lemma_first_true_unique(ex, 0);
}

/// With neither the override nor the running executable chosen, the
/// resolved candidate comes from the fixed platform list, in its order.
pub proof fn lemma_fixed_list_order(
    ov: Option<Seq<char>>,
    exe: Option<Seq<char>>,
    app_name: Seq<char>,
    fixed: Seq<Seq<char>>,
    ex: Seq<bool>,
    i: int,
)
    requires
        ex.len() == binary_candidate_views(ov, exe, app_name, fixed).len(),
        first_true(ex) == Some(i),
        i >= binary_candidate_views(ov, exe, app_name, fixed).len() - fixed.len(),
    ensures
        binary_candidate_views(ov, exe, app_name, fixed)[i] == fixed[i - (ex.len()
            - fixed.len())],
{
    lemma_first_true(ex);
}

/// Script-candidate priority: the working-directory-relative path, when it
/// exists, is the resolved candidate, ahead of every other location.
pub proof fn lemma_script_cwd_priority(
    cwd: Seq<char>,
    exe: Option<Seq<char>>,
    prefix_share: bool,
    fixed: Seq<Seq<char>>,
    ex: Seq<bool>,
)
    requires
        ex.len() == script_candidate_views(Some(cwd), exe, prefix_share, fixed).len(),
        ex[0],
    ensures
        first_true(ex) == Some(0int),
        script_candidate_views(Some(cwd), exe, prefix_share, fixed)[0] == join_view(
            cwd,
            "assets/shell-integration/setup_zsh.sh"@,
        ),
{
    lemma_first_true_unique(ex, 0);
}

/// Script-candidate priority: when the working-directory-relative path
/// does not exist, the executable-resource-relative path, when present
/// and existing, is the resolved candidate, ahead of the well-known
/// platform locations.
pub proof fn lemma_script_resource_priority(
    cwd: Option<Seq<char>>,
    exe: Seq<char>,
    g: Seq<char>,
    prefix_share: bool,
    fixed: Seq<Seq<char>>,
    ex: Seq<bool>,
)
    requires
        grandparent_view(exe) == Some(g),
        ex.len() == script_candidate_views(cwd, Some(exe), prefix_share, fixed).len(),
        cwd is Some ==> !ex[0],
        ex[if cwd is Some { 1int } else { 0int }],
    ensures
        first_true(ex) == Some(if cwd is Some { 1int } else { 0int }),
        script_candidate_views(cwd, Some(exe), prefix_share, fixed)[if cwd is Some {
            1int
        } else {
            0int
        }] == join_view(g, "Resources/setup_zsh.sh"@),
{
    let k: int = if cwd is Some { 1int } else { 0int };
    lemma_first_true_unique(ex, k);
}

} // verus!
