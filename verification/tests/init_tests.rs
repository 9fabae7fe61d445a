use kaku_init::escape::escape_for_double_quotes;
use kaku_init::escape::unescape_double_quotes;
use kaku_init::flow::interpret_script_status;
use kaku_init::flow::script_command;
use kaku_init::flow::InitAction;
use kaku_init::flow::InitCommand;
use kaku_init::flow::InitError;
use kaku_init::flow::InitEvent;
use kaku_init::flow::InitState;
use kaku_init::install::install_plan;
use kaku_init::install::wrapper_path;
use kaku_init::paths::eq_ignore_ascii_case;
use kaku_init::paths::path_file_name;
use kaku_init::paths::path_join;
use kaku_init::paths::path_parent;
use kaku_init::profile::get_default_kaku_path;
use kaku_init::profile::platform_profile;
use kaku_init::profile::Platform;
use kaku_init::profile::PlatformProfile;
use kaku_init::resolve::binary_candidates;
use kaku_init::resolve::first_existing_index;
use kaku_init::resolve::resolve_first_existing;
use kaku_init::resolve::script_candidates;
use kaku_init::script::generate_wrapper_script;

const HOME: &str = "/home/user";

fn linux() -> PlatformProfile {
    platform_profile(Platform::Linux, HOME)
}

fn macos() -> PlatformProfile {
    platform_profile(Platform::Macos, HOME)
}

#[test]
fn escape_leaves_plain_paths_alone() {
    assert_eq!(escape_for_double_quotes("/usr/local/bin/kaku"), "/usr/local/bin/kaku");
    assert_eq!(escape_for_double_quotes(""), "");
}

#[test]
fn escape_neutralizes_each_special_character() {
    assert_eq!(escape_for_double_quotes("a\\b"), "a\\\\b");
    assert_eq!(escape_for_double_quotes("a\"b"), "a\\\"b");
    assert_eq!(escape_for_double_quotes("a$b"), "a\\$b");
    assert_eq!(escape_for_double_quotes("a`b"), "a\\`b");
}

#[test]
fn escape_does_not_double_escape_inserted_backslashes() {
    // A backslash followed by a dollar sign: each gets its own backslash,
    // and the backslash inserted for the dollar is not escaped again.
    assert_eq!(escape_for_double_quotes("\\$"), "\\\\\\$");
}

#[test]
fn escape_round_trips_every_special_character() {
    let nasty = "/weird path/\\back\"quote$dollar`tick/kaku";
    let escaped = escape_for_double_quotes(nasty);
    assert_eq!(unescape_double_quotes(&escaped), nasty);
}

#[test]
fn generated_script_matches_template_exactly() {
    let script = generate_wrapper_script("/opt/kaku/bin/kaku", &linux());
    let expected = "#!/bin/bash\nset -euo pipefail\n\nif [[ -n \"${KAKU_BIN:-}\" && -x \"${KAKU_BIN}\" ]]; then\n\texec \"${KAKU_BIN}\" \"$@\"\nfi\n\nfor candidate in \\\n\t\"/opt/kaku/bin/kaku\" \\\n\t\"/usr/local/bin/kaku\" \\\n\t\"/usr/bin/kaku\" \\\n\t\"$HOME/.local/bin/kaku\"; do\n\tif [[ -n \"$candidate\" && -x \"$candidate\" ]]; then\n\t\texec \"$candidate\" \"$@\"\n\tfi\ndone\n\necho \"kaku: kaku binary not found. Please ensure kaku is installed.\" >&2\nexit 127\n";
    assert_eq!(script, expected);
}

#[test]
fn generated_script_invariants_hold_on_both_platforms() {
    for profile in [linux(), macos()] {
        let script = generate_wrapper_script("/somewhere/kaku", &profile);
        assert!(script.starts_with("#!/bin/bash\n"));
        assert!(script.contains("exit 127"));
        assert!(script.contains(">&2"));
    }
}

#[test]
fn wrapper_path_is_the_fixed_per_user_location() {
    assert_eq!(wrapper_path(HOME), "/home/user/.config/kaku/zsh/bin/kaku");
}

#[test]
fn install_twice_with_same_binary_is_byte_identical() {
    let resolved = Some("/usr/bin/kaku".to_string());
    let first = install_plan(HOME, &resolved, &linux(), false);
    let second = install_plan(HOME, &resolved, &linux(), true);
    assert_eq!(first.content, second.content);
    assert_eq!(first.path, second.path);
    assert_eq!(first.directory, second.directory);
    assert_eq!(first.mode, second.mode);
    assert_eq!(first.mode, 0o755);
}

#[test]
fn stale_symlink_is_removed_before_writing() {
    let plan = install_plan(HOME, &None, &linux(), true);
    assert!(plan.remove_existing_first);
    let plan = install_plan(HOME, &None, &linux(), false);
    assert!(!plan.remove_existing_first);
}

#[test]
fn install_plan_targets_dir_and_path_together() {
    let plan = install_plan(HOME, &None, &linux(), false);
    assert_eq!(plan.directory, "/home/user/.config/kaku/zsh/bin");
    assert_eq!(plan.path, "/home/user/.config/kaku/zsh/bin/kaku");
}

#[test]
fn override_wins_over_everything() {
    let over = Some("/custom/kaku".to_string());
    let exe = Some("/proc/self/kaku".to_string());
    let cands = binary_candidates(&over, &exe, &linux());
    assert_eq!(cands[0], "/custom/kaku");
    assert_eq!(cands[1], "/proc/self/kaku");
    // Every candidate exists at once: the override is still the one picked.
    let exists = vec![true; cands.len()];
    assert_eq!(resolve_first_existing(&cands, &exists), Some("/custom/kaku".to_string()));
}

#[test]
fn running_executable_wins_over_fixed_list() {
    let exe = Some("/somewhere/kaku".to_string());
    let cands = binary_candidates(&None, &exe, &linux());
    assert_eq!(cands[0], "/somewhere/kaku");
    let exists = vec![true; cands.len()];
    assert_eq!(resolve_first_existing(&cands, &exists), Some("/somewhere/kaku".to_string()));
}

#[test]
fn executable_name_is_compared_case_insensitively() {
    let exe = Some("/somewhere/KaKu".to_string());
    let cands = binary_candidates(&None, &exe, &linux());
    assert_eq!(cands[0], "/somewhere/KaKu");
    let exe = Some("/somewhere/kakux".to_string());
    let cands = binary_candidates(&None, &exe, &linux());
    // A differently named executable contributes no candidate.
    assert_eq!(cands[0], "/usr/local/bin/kaku");
    assert!(eq_ignore_ascii_case("Kaku", "kAKU"));
    assert!(!eq_ignore_ascii_case("kaku", "kakux"));
}

#[test]
fn fixed_binary_candidates_keep_platform_order() {
    let cands = binary_candidates(&None, &None, &linux());
    assert_eq!(
        cands,
        vec![
            "/usr/local/bin/kaku".to_string(),
            "/usr/bin/kaku".to_string(),
            "/home/user/.local/bin/kaku".to_string(),
        ]
    );
    let cands = binary_candidates(&None, &None, &macos());
    assert_eq!(
        cands,
        vec![
            "/Applications/Kaku.app/Contents/MacOS/kaku".to_string(),
            "/home/user/Applications/Kaku.app/Contents/MacOS/kaku".to_string(),
        ]
    );
}

#[test]
fn no_existing_binary_falls_back_to_platform_default() {
    let cands = binary_candidates(&None, &None, &linux());
    let exists = vec![false; cands.len()];
    assert_eq!(resolve_first_existing(&cands, &exists), None);
    assert_eq!(get_default_kaku_path(Platform::Linux), "/usr/local/bin/kaku");
    assert_eq!(
        get_default_kaku_path(Platform::Macos),
        "/Applications/Kaku.app/Contents/MacOS/kaku"
    );
}

#[test]
fn default_fallback_is_embedded_when_nothing_exists() {
    // No override, no real binary anywhere: the plan embeds the injected
    // platform default as plain text, and the script keeps its terminal
    // diagnostic path.
    let mut profile = linux();
    profile.default_binary = "/usr/local/bin/app".to_string();
    let plan = install_plan(HOME, &None, &profile, false);
    assert!(plan.content.contains("\t\"/usr/local/bin/app\" \\\n"));
    assert!(plan.content.contains("exit 127"));
    assert!(plan.content.contains(">&2"));
}

#[test]
fn own_executable_named_app_is_preferred() {
    // The resolver trusts the running executable when its file name is the
    // expected application name.
    let mut profile = linux();
    profile.app_name = "app".to_string();
    let exe = Some("/opt/tools/app".to_string());
    let cands = binary_candidates(&None, &exe, &profile);
    assert_eq!(cands[0], "/opt/tools/app");
    let mut exists = vec![false; cands.len()];
    exists[0] = true;
    assert_eq!(resolve_first_existing(&cands, &exists), Some("/opt/tools/app".to_string()));
}

#[test]
fn script_candidates_keep_priority_order() {
    let cwd = Some("/work/checkout".to_string());
    let exe = Some("/usr/local/bin/kaku".to_string());
    let cands = script_candidates(&cwd, &exe, &linux());
    assert_eq!(
        cands,
        vec![
            "/work/checkout/assets/shell-integration/setup_zsh.sh".to_string(),
            "/usr/local/Resources/setup_zsh.sh".to_string(),
            "/usr/local/share/kaku/setup_zsh.sh".to_string(),
            "/usr/share/kaku/setup_zsh.sh".to_string(),
            "/usr/local/share/kaku/setup_zsh.sh".to_string(),
            "/home/user/.local/share/kaku/setup_zsh.sh".to_string(),
        ]
    );
    // With every candidate present the working-directory one is picked.
    let exists = vec![true; cands.len()];
    assert_eq!(
        resolve_first_existing(&cands, &exists),
        Some("/work/checkout/assets/shell-integration/setup_zsh.sh".to_string())
    );
    // Without it, the executable-resource-relative one comes next.
    let mut exists = vec![true; cands.len()];
    exists[0] = false;
    assert_eq!(
        resolve_first_existing(&cands, &exists),
        Some("/usr/local/Resources/setup_zsh.sh".to_string())
    );
}

#[test]
fn macos_script_candidates_have_no_prefix_share_entry() {
    let exe = Some("/Applications/Kaku.app/Contents/MacOS/kaku".to_string());
    let cands = script_candidates(&None, &exe, &macos());
    assert_eq!(
        cands,
        vec![
            "/Applications/Kaku.app/Contents/Resources/setup_zsh.sh".to_string(),
            "/Applications/Kaku.app/Contents/Resources/setup_zsh.sh".to_string(),
            "/home/user/Applications/Kaku.app/Contents/Resources/setup_zsh.sh".to_string(),
        ]
    );
}

#[test]
fn first_existing_picks_earliest() {
    assert_eq!(first_existing_index(&vec![false, true, true]), Some(1));
    assert_eq!(first_existing_index(&vec![true, false]), Some(0));
    assert_eq!(first_existing_index(&vec![false, false]), None);
    assert_eq!(first_existing_index(&vec![]), None);
}

#[test]
fn path_helpers_split_where_expected() {
    assert_eq!(path_join("/a/b", "c"), "/a/b/c");
    assert_eq!(path_parent("/a/b/c"), Some("/a/b".to_string()));
    assert_eq!(path_parent("kaku"), None);
    assert_eq!(path_file_name("/a/b/kaku"), "kaku");
    assert_eq!(path_file_name("kaku"), "kaku");
}

#[test]
fn flow_walks_to_done_on_success() {
    let cmd = InitCommand { update_only: false };
    let (st, act) = cmd.run(InitState::Start, InitEvent::Begin);
    assert_eq!(st, InitState::InstallingWrapper);
    assert_eq!(act, InitAction::InstallWrapper);
    let (st, act) = cmd.run(st, InitEvent::WrapperInstalled);
    assert_eq!(st, InitState::ResolvingScript);
    assert_eq!(act, InitAction::ResolveScript);
    let (st, act) = cmd.run(st, InitEvent::ScriptResolved("/tmp/setup_zsh.sh".to_string()));
    assert_eq!(st, InitState::RunningScript);
    assert_eq!(
        act,
        InitAction::RunScript { script: "/tmp/setup_zsh.sh".to_string(), update_only: false }
    );
    let (st, act) = cmd.run(st, InitEvent::ScriptExited(Some(0)));
    assert_eq!(st, InitState::Done);
    assert_eq!(act, InitAction::Stop);
}

#[test]
fn missing_script_fails_without_running_anything() {
    let cmd = InitCommand { update_only: false };
    let (st, act) = cmd.run(InitState::ResolvingScript, InitEvent::ScriptMissing);
    assert_eq!(st, InitState::Failed(InitError::ScriptNotFound));
    assert_eq!(act, InitAction::Stop);
    assert_eq!(
        InitError::ScriptNotFound.message(),
        "failed to locate setup_zsh.sh for Kaku initialization"
    );
}

#[test]
fn second_update_only_run_repeats_content_and_forwards_flag() {
    // Two runs in a row, the second with the update-only flag: the wrapper
    // content is unchanged, and the second invocation carries both the
    // marker and the flag.
    let resolved = Some("/usr/bin/kaku".to_string());
    let first = install_plan(HOME, &resolved, &linux(), false);
    let second = install_plan(HOME, &resolved, &linux(), false);
    assert_eq!(first.content, second.content);

    let cmd = InitCommand { update_only: true };
    let (_, act) = cmd.run(
        InitState::ResolvingScript,
        InitEvent::ScriptResolved("/tmp/setup_zsh.sh".to_string()),
    );
    assert_eq!(
        act,
        InitAction::RunScript { script: "/tmp/setup_zsh.sh".to_string(), update_only: true }
    );
    let inv = script_command(&"/tmp/setup_zsh.sh".to_string(), true);
    assert_eq!(inv.program, "/bin/bash");
    assert_eq!(inv.args, vec!["/tmp/setup_zsh.sh".to_string(), "--update-only".to_string()]);
    assert_eq!(inv.marker_name, "KAKU_INIT_INTERNAL");
    assert_eq!(inv.marker_value, "1");

    let inv = script_command(&"/tmp/setup_zsh.sh".to_string(), false);
    assert_eq!(inv.args, vec!["/tmp/setup_zsh.sh".to_string()]);
}

#[test]
fn script_exit_status_maps_to_outcome() {
    assert_eq!(interpret_script_status(Some(0)), Ok(()));
    assert_eq!(
        interpret_script_status(Some(3)),
        Err(InitError::ScriptFailed { code: Some(3) })
    );
    assert_eq!(interpret_script_status(None), Err(InitError::ScriptFailed { code: None }));

    let cmd = InitCommand { update_only: false };
    let (st, _) = cmd.run(InitState::RunningScript, InitEvent::ScriptExited(Some(2)));
    assert_eq!(st, InitState::Failed(InitError::ScriptFailed { code: Some(2) }));
    let (st, _) = cmd.run(InitState::RunningScript, InitEvent::ScriptLaunchFailed);
    assert_eq!(st, InitState::Failed(InitError::ScriptLaunch));
}

#[test]
fn wrapper_failure_is_terminal_with_its_reason() {
    let cmd = InitCommand { update_only: false };
    let (st, act) = cmd.run(
        InitState::InstallingWrapper,
        InitEvent::WrapperFailed(InitError::WriteWrapper),
    );
    assert_eq!(st, InitState::Failed(InitError::WriteWrapper));
    assert_eq!(act, InitAction::Stop);
    assert_eq!(InitError::CreateWrapperDirectory.message(), "create wrapper directory");
    assert_eq!(InitError::RemoveLegacySymlink.message(), "remove legacy symlink wrapper");
    assert_eq!(InitError::WriteWrapper.message(), "write wrapper");
    assert_eq!(InitError::SetWrapperPermissions.message(), "chmod wrapper");
}
