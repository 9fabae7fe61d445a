//! The `init` flow as a state machine, and the setup-script invocation.
//!
//! The flow is `Start -> InstallingWrapper -> ResolvingScript ->
//! RunningScript -> Done`, any step going straight to `Failed` on error
//! and no step re-entered. The library decides every transition; the
//! surrounding binary performs the returned action and reports its
//! outcome as the next event.

use vstd::prelude::*;
use vstd::string::StringExecFns;

use crate::profile::views;

verus! {

/// Every way one run of `init` can fail. Each failure is terminal.
#[derive(Debug, Clone, PartialEq, Eq)]
pub enum InitError {
    /// The wrapper's directory chain could not be created.
    CreateWrapperDirectory,
    /// A stale symbolic link at the wrapper path could not be removed.
    RemoveLegacySymlink,
    /// The wrapper file could not be created.
    CreateWrapper,
    /// The wrapper text could not be written.
    WriteWrapper,
    /// The wrapper's permission bits could not be set.
    SetWrapperPermissions,
    /// No setup-script candidate exists anywhere.
    ScriptNotFound,
    /// The setup script could not be started.
    ScriptLaunch,
    /// The setup script ran and exited without success; `code` is its exit
    /// status, or `None` when it was ended by a signal.
    ScriptFailed { code: Option<i32> },
}

pub open spec fn error_message_view(e: InitError) -> Seq<char> {
    match e {
        InitError::CreateWrapperDirectory => "create wrapper directory"@,
        InitError::RemoveLegacySymlink => "remove legacy symlink wrapper"@,
        InitError::CreateWrapper => "create wrapper"@,
        InitError::WriteWrapper => "write wrapper"@,
        InitError::SetWrapperPermissions => "chmod wrapper"@,
        InitError::ScriptNotFound => "failed to locate setup_zsh.sh for Kaku initialization"@,
        InitError::ScriptLaunch => "failed to run the setup script"@,
        InitError::ScriptFailed { .. } => "kaku init failed with non-zero status"@,
    }
}

impl InitError {
    /// A short, human-readable name of the failing step.
    pub fn message(&self) -> (r: String)
        ensures
            r@ == error_message_view(*self),
    {
        match self {
            InitError::CreateWrapperDirectory => String::from_str("create wrapper directory"),
            InitError::RemoveLegacySymlink => String::from_str("remove legacy symlink wrapper"),
            InitError::CreateWrapper => String::from_str("create wrapper"),
            InitError::WriteWrapper => String::from_str("write wrapper"),
            InitError::SetWrapperPermissions => String::from_str("chmod wrapper"),
            InitError::ScriptNotFound => String::from_str(
                "failed to locate setup_zsh.sh for Kaku initialization",
            ),
            InitError::ScriptLaunch => String::from_str("failed to run the setup script"),
            InitError::ScriptFailed { .. } => String::from_str(
                "kaku init failed with non-zero status",
            ),
        }
    }
}

/// The states of one `init` run.
#[derive(Debug, Clone, PartialEq, Eq)]
pub enum InitState {
    Start,
    InstallingWrapper,
    ResolvingScript,
    RunningScript,
    Done,
    Failed(InitError),
}

/// What the last performed action reported back.
#[derive(Debug, Clone, PartialEq, Eq)]
pub enum InitEvent {
    Begin,
    WrapperInstalled,
    WrapperFailed(InitError),
    /// The setup script was found at the carried path.
    ScriptResolved(String),
    ScriptMissing,
    /// The script ran; its exit status, or `None` when ended by a signal.
    ScriptExited(Option<i32>),
    ScriptLaunchFailed,
}

/// What the caller must do next.
#[derive(Debug, Clone, PartialEq, Eq)]
pub enum InitAction {
    /// Carry out the wrapper install plan.
    InstallWrapper,
    /// Look for the setup script among its candidates.
    ResolveScript,
    /// Run the resolved setup script.
    RunScript { script: String, update_only: bool },
    /// The flow is over; nothing is left to do.
    Stop,
}

/// Which events can answer which state: exactly the outcomes of the
/// action that the state is waiting on. `Done` and `Failed` are terminal
/// and accept none.
pub open spec fn state_accepts(st: InitState, ev: InitEvent) -> bool {
    match (st, ev) {
        (InitState::Start, InitEvent::Begin) => true,
        (InitState::InstallingWrapper, InitEvent::WrapperInstalled) => true,
        (InitState::InstallingWrapper, InitEvent::WrapperFailed(_)) => true,
        (InitState::ResolvingScript, InitEvent::ScriptResolved(_)) => true,
        (InitState::ResolvingScript, InitEvent::ScriptMissing) => true,
        (InitState::RunningScript, InitEvent::ScriptExited(_)) => true,
        (InitState::RunningScript, InitEvent::ScriptLaunchFailed) => true,
        _ => false,
    }
}

/// The whole transition table of the flow.
pub open spec fn init_step(update_only: bool, st: InitState, ev: InitEvent) -> (
    InitState,
    InitAction,
) {
    match (st, ev) {
        (InitState::Start, InitEvent::Begin) => (
            InitState::InstallingWrapper,
            InitAction::InstallWrapper,
        ),
        (InitState::InstallingWrapper, InitEvent::WrapperInstalled) => (
            InitState::ResolvingScript,
            InitAction::ResolveScript,
        ),
        (InitState::InstallingWrapper, InitEvent::WrapperFailed(e)) => (
            InitState::Failed(e),
            InitAction::Stop,
        ),
        (InitState::ResolvingScript, InitEvent::ScriptResolved(p)) => (
            InitState::RunningScript,
            InitAction::RunScript { script: p, update_only },
        ),
        (InitState::ResolvingScript, InitEvent::ScriptMissing) => (
            InitState::Failed(InitError::ScriptNotFound),
            InitAction::Stop,
        ),
        (InitState::RunningScript, InitEvent::ScriptExited(code)) => match code {
            Some(c) => if c == 0 {
                (InitState::Done, InitAction::Stop)
            } else {
                (InitState::Failed(InitError::ScriptFailed { code: Some(c) }), InitAction::Stop)
            },
            None => (
                InitState::Failed(InitError::ScriptFailed { code: None }),
                InitAction::Stop,
            ),
        },
        (InitState::RunningScript, InitEvent::ScriptLaunchFailed) => (
            InitState::Failed(InitError::ScriptLaunch),
            InitAction::Stop,
        ),
        _ => (st, InitAction::Stop),
    }
}

/// The `init` subcommand: refresh the wrapper and the shell integration.
#[derive(Debug, Clone, Copy, PartialEq, Eq, Structural, Default)]
pub struct InitCommand {
    /// Refresh shell integration without interactive prompts.
    pub update_only: bool,
}

impl InitCommand {
    /// Drives the flow one step: from the current state and the event
    /// reporting the last action's outcome to the next state and the next
    /// action. Every transition is the one `init_step` gives.
    pub fn run(&self, st: InitState, ev: InitEvent) -> (r: (InitState, InitAction))
        requires
            state_accepts(st, ev),
        ensures
            r == init_step(self.update_only, st, ev),
    {
        match (st, ev) {
            (InitState::Start, InitEvent::Begin) => (
                InitState::InstallingWrapper,
                InitAction::InstallWrapper,
            ),
            (InitState::InstallingWrapper, InitEvent::WrapperInstalled) => (
                InitState::ResolvingScript,
                InitAction::ResolveScript,
            ),
            (InitState::InstallingWrapper, InitEvent::WrapperFailed(e)) => (
                InitState::Failed(e),
                InitAction::Stop,
            ),
            (InitState::ResolvingScript, InitEvent::ScriptResolved(p)) => (
                InitState::RunningScript,
                InitAction::RunScript { script: p, update_only: self.update_only },
            ),
            (InitState::ResolvingScript, InitEvent::ScriptMissing) => (
                InitState::Failed(InitError::ScriptNotFound),
                InitAction::Stop,
            ),
            (InitState::RunningScript, InitEvent::ScriptExited(code)) => match code {
                Some(c) => if c == 0 {
                    (InitState::Done, InitAction::Stop)
                } else {
                    (
                        InitState::Failed(InitError::ScriptFailed { code: Some(c) }),
                        InitAction::Stop,
                    )
                },
                None => (
                    InitState::Failed(InitError::ScriptFailed { code: None }),
                    InitAction::Stop,
                ),
            },
            (InitState::RunningScript, InitEvent::ScriptLaunchFailed) => (
                InitState::Failed(InitError::ScriptLaunch),
                InitAction::Stop,
            ),
            (other_state, _) => (other_state, InitAction::Stop),
        }
    }
}

/// A missing setup script is terminal: resolution failure yields the
/// distinct script-not-found error, stops the flow, and no later event —
/// in particular no script run — is accepted.
pub proof fn lemma_script_missing_terminal(update_only: bool)
    ensures
        init_step(update_only, InitState::ResolvingScript, InitEvent::ScriptMissing) == (
            InitState::Failed(InitError::ScriptNotFound),
            InitAction::Stop,
        ),
        forall|ev: InitEvent|
            !(#[trigger] state_accepts(InitState::Failed(InitError::ScriptNotFound), ev)),
{
}

/// How the resolved setup script is invoked.
pub struct ScriptInvocation {
    /// The interpreter that runs the script.
    pub program: String,
    /// Its arguments: the script path, then the update-only flag when the
    /// run was asked to skip interactive steps.
    pub args: Vec<String>,
    /// Name of the marker environment variable signalling an automated,
    /// non-interactive run to the script.
    pub marker_name: String,
    /// Its value.
    pub marker_value: String,
}

/// Builds the setup-script invocation: `/bin/bash <script> [--update-only]`
/// with the internal marker set to `"1"`.
pub fn script_command(script: &String, update_only: bool) -> (r: ScriptInvocation)
    ensures
        r.program@ == "/bin/bash"@,
        views(r.args@) == (if update_only {
            seq![script@, "--update-only"@]
        } else {
            seq![script@]
        }),
        r.marker_name@ == "KAKU_INIT_INTERNAL"@,
        r.marker_value@ == "1"@,
{
    let mut args: Vec<String> = Vec::new();
    args.push(script.clone());
    if update_only {
        args.push(String::from_str("--update-only"));
        proof {
            assert(views(args@) =~~= seq![script@, "--update-only"@]);
        }
    } else {
        proof {
            assert(views(args@) =~~= seq![script@]);
        }
    }
    ScriptInvocation {
        program: String::from_str("/bin/bash"),
        args,
        marker_name: String::from_str("KAKU_INIT_INTERNAL"),
        marker_value: String::from_str("1"),
    }
}

/// Maps the setup script's exit status to the run's outcome: status zero
/// is success, anything else — a non-zero status or a signal — is the
/// distinct script-failure error carrying that status.
pub fn interpret_script_status(code: Option<i32>) -> (r: Result<(), InitError>)
    ensures
        r == (match code {
            Some(c) => if c == 0 {
                Ok::<(), InitError>(())
            } else {
                Err::<(), InitError>(InitError::ScriptFailed { code: Some(c) })
            },
            None => Err::<(), InitError>(InitError::ScriptFailed { code: None }),
        }),
{
    match code {
        Some(c) => if c == 0 {
            Ok(())
        } else {
            Err(InitError::ScriptFailed { code: Some(c) })
        },
        None => Err(InitError::ScriptFailed { code: None }),
    }
}

} // verus!
