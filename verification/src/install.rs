//! First-time installation: a state machine from greeting to completion.
//! Each state names one effect for the driver to perform (print, prompt,
//! copy the binary, write the env file, register a toolchain, bootstrap the
//! internal runtime, print path advice); the driver reports the outcome and
//! asks for the next state.  Cancellation at the confirmation point is a
//! quiet, non-error exit.

use vstd::prelude::*;
use vstd::string::StringExecFns;
use crate::platform::Platform;

verus! {

/// Triggers the initial installation: moves the tool to its target location
/// and adds it to the environment.
pub struct InstallCommand {
    /// Skip prompts.
    pub yes: bool,
    /// Register a specific toolchain before bootstrap.
    pub toolchain: Option<String>,
}

/// How the installation was started.
#[derive(Clone, Copy, Debug, PartialEq, Eq, Structural)]
pub enum InstallMode {
    /// Interactive: ask for confirmation before touching the disk.
    Default,
    /// Prompts skipped on request.
    NoPrompts,
    /// Auto-detected first run: context is printed, no confirmation asked.
    AutoInstall,
}

/// A resolved request to run the installation flow.
pub struct InstallRequest {
    pub mode: InstallMode,
    /// Path of a toolchain to pre-register, as text.
    pub toolchain: Option<String>,
}

/// Starts the installation flow for an explicit install invocation.
pub fn install(cmd: InstallCommand) -> (r: InstallRequest)
    ensures
        r.mode == (if cmd.yes {
            InstallMode::NoPrompts
        } else {
            InstallMode::Default
        }),
        r.toolchain == cmd.toolchain,
{
    InstallRequest {
        mode: if cmd.yes {
            InstallMode::NoPrompts
        } else {
            InstallMode::Default
        },
        toolchain: cmd.toolchain,
    }
}

/// Whether the value of the disabling environment variable turns the
/// unattended first-run installation off: only the exact value `1` does.
pub fn auto_install_disabled(var: Option<&String>) -> (r: bool)
    ensures
        r == (var matches Some(v) && v@ == "1"@),
{
    match var {
        Some(v) => {
            let one: String = "1".to_owned();
            v.eq(&one)
        },
        None => false,
    }
}

/// Whether an unattended first run should install, and the request for it:
/// never when the disabling variable is set, never when the application
/// directory and the primary binary already exist.
pub fn auto_self_install_request(
    disabled: bool,
    app_dir_exists: bool,
    primary_exists: bool,
    toolchain: Option<String>,
) -> (r: Option<InstallRequest>)
    ensures
        match r {
            Some(req) => {
                &&& !disabled
                &&& !(app_dir_exists && primary_exists)
                &&& req.mode is AutoInstall
                &&& req.toolchain == toolchain
            },
            None => disabled || (app_dir_exists && primary_exists),
        },
{
    if disabled || (app_dir_exists && primary_exists) {
        None
    } else {
        Some(InstallRequest { mode: InstallMode::AutoInstall, toolchain })
    }
}

/// Everything the installation flow decides on, resolved once at its start.
pub struct InstallConfig {
    pub mode: InstallMode,
    /// Path of a toolchain to pre-register, as text.
    pub toolchain: Option<String>,
    /// Whether the application root was overridden by the environment.
    pub custom_home: bool,
    /// The application root as it should appear in generated text: the
    /// override when one is set, else the unexpanded per-OS default.
    pub home: String,
    pub platform: Platform,
}

/// The states of the installation flow.
#[derive(Clone, Copy, Debug, PartialEq, Eq, Structural)]
pub enum InstallState {
    Greeting,
    ConfirmOrSkip,
    PlaceBinary,
    WriteEnvFile,
    RegisterToolchain,
    BootstrapRuntime,
    ReportPathAdvice,
    Done,
    Cancelled,
    Failed,
}

/// What the driver reports about the effect it performed.
#[derive(Clone, Copy, Debug, PartialEq, Eq, Structural)]
pub enum StepOutcome {
    Success,
    /// The user declined the confirmation prompt.
    Declined,
    Failure,
}

/// The one effect the driver performs in a state.
pub enum InstallEffect {
    /// Print the greeting and the install details; with the auto-install
    /// context when the flow started unprompted.
    ShowGreeting { auto_context: bool },
    /// Ask the user to confirm; report `Declined` when refused.
    AskConfirm,
    /// No prompt in this mode: report success.
    SkipConfirm,
    /// Create the directory tree (pre-existing directories are no error),
    /// remove a stale file at the shim target path, and copy the running
    /// executable's bytes there.  Copy failure is fatal.
    PlaceBinary,
    /// Write this exact script to the `env` file; nothing on platforms that
    /// need no sourced file.
    WriteEnvFile { script: Option<String> },
    /// Hand this toolchain path to the external registrar; nothing when no
    /// toolchain was supplied.
    RegisterToolchain { toolchain: Option<String> },
    /// Ask the external collaborator to ensure the internal runtime exists,
    /// and surface its result path.
    BootstrapRuntime,
    /// Read-only diagnostics: check PATH and print shell-specific guidance.
    /// Never fails the flow.
    ReportPathAdvice,
    /// Terminal state: nothing to do.
    NoEffect,
}

/// Whether a state ends the flow.
pub open spec fn is_terminal(s: InstallState) -> bool {
    s is Done || s is Cancelled || s is Failed
}

/// Steps left until the flow must terminate.
pub open spec fn state_rank(s: InstallState) -> nat {
    match s {
        InstallState::Greeting => 7,
        InstallState::ConfirmOrSkip => 6,
        InstallState::PlaceBinary => 5,
        InstallState::WriteEnvFile => 4,
        InstallState::RegisterToolchain => 3,
        InstallState::BootstrapRuntime => 2,
        InstallState::ReportPathAdvice => 1,
        _ => 0,
    }
}

/// The transition relation of the flow.  Hard failures stop the pipeline at
/// once; declining the confirmation cancels quietly; the closing diagnostics
/// never fail the flow.
pub open spec fn next_state_spec(
    has_toolchain: bool,
    s: InstallState,
    outcome: StepOutcome,
) -> InstallState {
    match s {
        InstallState::Greeting => if outcome is Success {
            InstallState::ConfirmOrSkip
        } else {
            InstallState::Failed
        },
        InstallState::ConfirmOrSkip => match outcome {
            StepOutcome::Success => InstallState::PlaceBinary,
            StepOutcome::Declined => InstallState::Cancelled,
            StepOutcome::Failure => InstallState::Failed,
        },
        InstallState::PlaceBinary => if outcome is Success {
            InstallState::WriteEnvFile
        } else {
            InstallState::Failed
        },
        InstallState::WriteEnvFile => if outcome is Success {
            if has_toolchain {
                InstallState::RegisterToolchain
            } else {
                InstallState::BootstrapRuntime
            }
        } else {
            InstallState::Failed
        },
        InstallState::RegisterToolchain => if outcome is Success {
            InstallState::BootstrapRuntime
        } else {
            InstallState::Failed
        },
        InstallState::BootstrapRuntime => if outcome is Success {
            InstallState::ReportPathAdvice
        } else {
            InstallState::Failed
        },
        InstallState::ReportPathAdvice => InstallState::Done,
        _ => s,
    }
}

/// Advances the flow by one reported outcome.  The flow always terminates:
/// every step from a non-terminal state strictly lowers the state's rank.
pub fn install_step(cfg: &InstallConfig, s: InstallState, outcome: StepOutcome) -> (r:
    InstallState)
    ensures
        r == next_state_spec(cfg.toolchain is Some, s, outcome),
        !is_terminal(s) ==> state_rank(r) < state_rank(s),
        is_terminal(s) ==> r == s,
{
    match s {
        InstallState::Greeting => if matches!(outcome, StepOutcome::Success) {
            InstallState::ConfirmOrSkip
        } else {
            InstallState::Failed
        },
        InstallState::ConfirmOrSkip => match outcome {
            StepOutcome::Success => InstallState::PlaceBinary,
            StepOutcome::Declined => InstallState::Cancelled,
            StepOutcome::Failure => InstallState::Failed,
        },
        InstallState::PlaceBinary => if matches!(outcome, StepOutcome::Success) {
            InstallState::WriteEnvFile
        } else {
            InstallState::Failed
        },
        InstallState::WriteEnvFile => if matches!(outcome, StepOutcome::Success) {
            if cfg.toolchain.is_some() {
                InstallState::RegisterToolchain
            } else {
                InstallState::BootstrapRuntime
            }
        } else {
            InstallState::Failed
        },
        InstallState::RegisterToolchain => if matches!(outcome, StepOutcome::Success) {
            InstallState::BootstrapRuntime
        } else {
            InstallState::Failed
        },
        InstallState::BootstrapRuntime => if matches!(outcome, StepOutcome::Success) {
            InstallState::ReportPathAdvice
        } else {
            InstallState::Failed
        },
        InstallState::ReportPathAdvice => InstallState::Done,
        InstallState::Done => InstallState::Done,
        InstallState::Cancelled => InstallState::Cancelled,
        InstallState::Failed => InstallState::Failed,
    }
}

/// The effect the driver must perform in a state.  The confirmation prompt
/// is asked only in the interactive mode: it is bypassed when prompts are
/// skipped on request and on an auto-detected first run.
pub fn install_effect_of(cfg: &InstallConfig, s: InstallState) -> (r: InstallEffect)
    ensures
        match r {
            InstallEffect::ShowGreeting { auto_context } => s is Greeting && auto_context == (
            cfg.mode is AutoInstall),
            InstallEffect::AskConfirm => s is ConfirmOrSkip && cfg.mode is Default,
            InstallEffect::SkipConfirm => s is ConfirmOrSkip && !(cfg.mode is Default),
            InstallEffect::PlaceBinary => s is PlaceBinary,
            InstallEffect::WriteEnvFile { script } => {
                &&& s is WriteEnvFile
                &&& match script {
                    Some(t) => cfg.platform.writes_env_file() && t@ == env_script_spec(
                        cfg.custom_home,
                        cfg.home@,
                    ),
                    None => !cfg.platform.writes_env_file(),
                }
            },
            InstallEffect::RegisterToolchain { toolchain } => s is RegisterToolchain && toolchain
                == cfg.toolchain,
            InstallEffect::BootstrapRuntime => s is BootstrapRuntime,
            InstallEffect::ReportPathAdvice => s is ReportPathAdvice,
            InstallEffect::NoEffect => is_terminal(s),
        },
{
    match s {
        InstallState::Greeting => InstallEffect::ShowGreeting {
            auto_context: matches!(cfg.mode, InstallMode::AutoInstall),
        },
        InstallState::ConfirmOrSkip => if matches!(cfg.mode, InstallMode::Default) {
            InstallEffect::AskConfirm
        } else {
            InstallEffect::SkipConfirm
        },
        InstallState::PlaceBinary => InstallEffect::PlaceBinary,
        InstallState::WriteEnvFile => InstallEffect::WriteEnvFile {
            script: match cfg.platform {
                Platform::UnixLike => Some(render_env_file(cfg.custom_home, cfg.home.as_str())),
                Platform::Windows => None,
            },
        },
        InstallState::RegisterToolchain => InstallEffect::RegisterToolchain {
            toolchain: match &cfg.toolchain {
                Some(t) => Some(t.clone()),
                None => None,
            },
        },
        InstallState::BootstrapRuntime => InstallEffect::BootstrapRuntime,
        InstallState::ReportPathAdvice => InstallEffect::ReportPathAdvice,
        _ => InstallEffect::NoEffect,
    }
}

/// The state after the flow has consumed a sequence of reported outcomes.
pub open spec fn run_flow(
    has_toolchain: bool,
    s: InstallState,
    outcomes: Seq<StepOutcome>,
) -> InstallState
    decreases outcomes.len(),
{
    if outcomes.len() == 0 {
        s
    } else {
        run_flow(has_toolchain, next_state_spec(has_toolchain, s, outcomes[0]), outcomes.drop_first())
    }
}

/// The flow always terminates: whatever the driver reports, after at most
/// as many steps as the state's rank the flow sits in a terminal state and
/// stays there.
pub proof fn lemma_flow_terminates(
    has_toolchain: bool,
    s: InstallState,
    outcomes: Seq<StepOutcome>,
)
    requires
        outcomes.len() >= state_rank(s),
    ensures
        is_terminal(run_flow(has_toolchain, s, outcomes)),
    decreases outcomes.len(),
{
    if outcomes.len() == 0 {
        assert(state_rank(s) == 0);
    } else {
        let next = next_state_spec(has_toolchain, s, outcomes[0]);
        assert(is_terminal(s) ==> next == s);
        assert(!is_terminal(s) ==> state_rank(next) < state_rank(s));
        lemma_flow_terminates(has_toolchain, next, outcomes.drop_first());
    }
}

/// Declining the confirmation terminates the whole flow: the flow is
/// cancelled at once, stays cancelled whatever else is reported, and the
/// states that touch the disk are never entered from a declined prompt.
pub proof fn lemma_decline_terminates_flow(has_toolchain: bool)
    ensures
        next_state_spec(has_toolchain, InstallState::ConfirmOrSkip, StepOutcome::Declined)
            is Cancelled,
        forall|o: StepOutcome|
            next_state_spec(has_toolchain, InstallState::Cancelled, o) is Cancelled,
{
}

/// A cancelled flow stays cancelled under every further report.
pub proof fn lemma_cancelled_is_final(has_toolchain: bool, outcomes: Seq<StepOutcome>)
    ensures
        run_flow(has_toolchain, InstallState::Cancelled, outcomes) is Cancelled,
    decreases outcomes.len(),
{
    if outcomes.len() > 0 {
        lemma_cancelled_is_final(has_toolchain, outcomes.drop_first());
    }
}

/// The shell-sourcing script written to the `env` file.  It exports the
/// application root only when the location was overridden, and guards
/// against prepending the shim directory onto `PATH` twice.
pub open spec fn env_script_spec(custom_home: bool, home: Seq<char>) -> Seq<char> {
    "\n# rye shell setup"@ + (if custom_home {
        "\nexport RYE_HOME=\""@ + home + "\""@
    } else {
        Seq::<char>::empty()
    }) + "\ncase \":${PATH}:\" in\n  *:\""@ + home
        + "/shims\":*)\n    ;;\n  *)\n    export PATH=\""@ + home
        + "/shims:$PATH\"\n    ;;\nesac\n\n"@
}

/// Renders the `env` script for the given application root.
pub fn render_env_file(custom_home: bool, home: &str) -> (r: String)
    ensures
        r@ == env_script_spec(custom_home, home@),
{
    let mut s: String = "\n# rye shell setup".to_owned();
    if custom_home {
        s.append("\nexport RYE_HOME=\"");
        s.append(home);
        s.append("\"");
    }
    s.append("\ncase \":${PATH}:\" in\n  *:\"");
    s.append(home);
    s.append("/shims\":*)\n    ;;\n  *)\n    export PATH=\"");
    s.append(home);
    s.append("/shims:$PATH\"\n    ;;\nesac\n\n");
    s
}

/// The verdict of the validation predicate handed to the external toolchain
/// registrar.
#[derive(Clone, Copy, Debug, PartialEq, Eq, Structural)]
pub enum ToolchainVerdict {
    /// The toolchain may be registered.
    Allowed,
    /// Not a cpython toolchain: rejected.
    WrongKind,
    /// A cpython toolchain whose version the internal tooling cannot use:
    /// rejected.
    Incompatible,
}

/// Validates a toolchain offered for pre-registration: only cpython
/// toolchains that are version-compatible with the internal tooling are
/// allowed, and a rejection aborts the whole install.
pub fn validate_toolchain(kind: &String, self_compatible: bool) -> (r: ToolchainVerdict)
    ensures
        r is Allowed <==> (kind@ == "cpython"@ && self_compatible),
        r is WrongKind <==> kind@ != "cpython"@,
        r is Incompatible <==> (kind@ == "cpython"@ && !self_compatible),
{
    let cpython: String = "cpython".to_owned();
    if !kind.eq(&cpython) {
        ToolchainVerdict::WrongKind
    } else if !self_compatible {
        ToolchainVerdict::Incompatible
    } else {
        ToolchainVerdict::Allowed
    }
}

/// The closing path diagnostics to emit.
#[derive(Clone, Copy, Debug, PartialEq, Eq, Structural)]
pub enum PathAdvice {
    /// The shim directory is already on `PATH`: nothing to say.
    Nothing,
    /// Recommend sourcing the env file; with the extra fish instructions
    /// under that shell.
    SourceEnvFile { fish: bool },
    /// Note that the shim directory must be added to `PATH` by hand.
    AddToPathManually,
}

/// Decides the closing diagnostics: on Unix-like platforms, advice is given
/// exactly when the shim directory is not already on `PATH`; on Windows the
/// manual note is always printed.  Diagnostics never fail the flow.
pub fn path_advice(plat: Platform, shims_on_path: bool, fish_shell: bool) -> (r: PathAdvice)
    ensures
        plat is Windows ==> r is AddToPathManually,
        plat is UnixLike && shims_on_path ==> r is Nothing,
        plat is UnixLike && !shims_on_path ==> (r matches PathAdvice::SourceEnvFile { fish }
            && fish == fish_shell),
{
    match plat {
        Platform::Windows => PathAdvice::AddToPathManually,
        Platform::UnixLike => if shims_on_path {
            PathAdvice::Nothing
        } else {
            PathAdvice::SourceEnvFile { fish: fish_shell }
        },
    }
}

/// How a finished flow is surfaced to the calling process.
#[derive(Clone, Copy, Debug, PartialEq, Eq, Structural)]
pub enum FlowOutcome {
    /// The flow completed.
    Success,
    /// The user cancelled: exit with this code, with no error message.
    QuietCancel { code: u8 },
    /// A hard failure: propagate as a user-visible error.
    Error,
}

/// Maps a terminal state to the process-level outcome: completion is
/// success, cancellation is the quiet non-error exit with code 1, a hard
/// failure propagates as an error.
pub fn flow_outcome(s: InstallState) -> (r: FlowOutcome)
    requires
        is_terminal(s),
    ensures
        s is Done ==> r is Success,
        s is Cancelled ==> (r matches FlowOutcome::QuietCancel { code } && code == 1),
        s is Failed ==> r is Error,
{
    match s {
        InstallState::Done => FlowOutcome::Success,
        InstallState::Cancelled => FlowOutcome::QuietCancel { code: 1 },
        _ => FlowOutcome::Error,
    }
}

} // verus!
