use rye_self::install::{
    auto_install_disabled, auto_self_install_request, install, install_effect_of, install_step,
    flow_outcome,
    path_advice, render_env_file, validate_toolchain, FlowOutcome, InstallCommand, InstallConfig,
    InstallEffect, InstallMode, InstallState, PathAdvice, StepOutcome, ToolchainVerdict,
};
use rye_self::platform::Platform;

fn unix_config(mode: InstallMode, toolchain: Option<String>) -> InstallConfig {
    InstallConfig {
        mode,
        toolchain,
        custom_home: false,
        home: String::from("$HOME/.rye"),
        platform: Platform::UnixLike,
    }
}

#[test]
fn install_command_maps_to_mode() {
    let r = install(InstallCommand { yes: false, toolchain: None });
    assert!(matches!(r.mode, InstallMode::Default));
    let r = install(InstallCommand { yes: true, toolchain: Some(String::from("/opt/py")) });
    assert!(matches!(r.mode, InstallMode::NoPrompts));
    assert_eq!(r.toolchain.as_deref(), Some("/opt/py"));
}

#[test]
fn only_the_exact_value_one_disables_the_auto_install() {
    assert!(auto_install_disabled(Some(&String::from("1"))));
    assert!(!auto_install_disabled(Some(&String::from("0"))));
    assert!(!auto_install_disabled(Some(&String::from("true"))));
    assert!(!auto_install_disabled(None));
}

#[test]
fn auto_install_runs_only_when_not_installed_and_not_disabled() {
    assert!(auto_self_install_request(true, false, false, None).is_none());
    assert!(auto_self_install_request(false, true, true, None).is_none());
    let r = auto_self_install_request(false, true, false, Some(String::from("/opt/py")));
    let req = r.expect("missing primary binary must trigger the auto install");
    assert!(matches!(req.mode, InstallMode::AutoInstall));
    assert_eq!(req.toolchain.as_deref(), Some("/opt/py"));
}

#[test]
fn interactive_flow_reaches_done() {
    let cfg = unix_config(InstallMode::Default, None);
    let mut s = InstallState::Greeting;
    assert!(matches!(
        install_effect_of(&cfg, s),
        InstallEffect::ShowGreeting { auto_context: false }
    ));
    s = install_step(&cfg, s, StepOutcome::Success);
    assert!(matches!(s, InstallState::ConfirmOrSkip));
    assert!(matches!(install_effect_of(&cfg, s), InstallEffect::AskConfirm));
    s = install_step(&cfg, s, StepOutcome::Success);
    assert!(matches!(s, InstallState::PlaceBinary));
    s = install_step(&cfg, s, StepOutcome::Success);
    assert!(matches!(s, InstallState::WriteEnvFile));
    // no toolchain supplied: registration is skipped entirely
    s = install_step(&cfg, s, StepOutcome::Success);
    assert!(matches!(s, InstallState::BootstrapRuntime));
    s = install_step(&cfg, s, StepOutcome::Success);
    assert!(matches!(s, InstallState::ReportPathAdvice));
    s = install_step(&cfg, s, StepOutcome::Success);
    assert!(matches!(s, InstallState::Done));
    assert!(matches!(flow_outcome(s), FlowOutcome::Success));
}

#[test]
fn declined_confirmation_cancels_quietly() {
    let cfg = unix_config(InstallMode::Default, None);
    let s = install_step(&cfg, InstallState::ConfirmOrSkip, StepOutcome::Declined);
    assert!(matches!(s, InstallState::Cancelled));
    assert!(matches!(flow_outcome(s), FlowOutcome::QuietCancel { code: 1 }));
}

#[test]
fn auto_install_skips_the_prompt_and_shows_context() {
    let cfg = unix_config(InstallMode::AutoInstall, None);
    assert!(matches!(
        install_effect_of(&cfg, InstallState::Greeting),
        InstallEffect::ShowGreeting { auto_context: true }
    ));
    assert!(matches!(
        install_effect_of(&cfg, InstallState::ConfirmOrSkip),
        InstallEffect::SkipConfirm
    ));
}

#[test]
fn supplied_toolchain_is_registered_before_bootstrap() {
    let cfg = unix_config(InstallMode::NoPrompts, Some(String::from("/opt/py")));
    let s = install_step(&cfg, InstallState::WriteEnvFile, StepOutcome::Success);
    assert!(matches!(s, InstallState::RegisterToolchain));
    match install_effect_of(&cfg, s) {
        InstallEffect::RegisterToolchain { toolchain } => {
            assert_eq!(toolchain.as_deref(), Some("/opt/py"))
        }
        _ => panic!("registration effect expected"),
    }
    let s = install_step(&cfg, s, StepOutcome::Success);
    assert!(matches!(s, InstallState::BootstrapRuntime));
}

#[test]
fn copy_failure_is_fatal() {
    let cfg = unix_config(InstallMode::NoPrompts, None);
    let s = install_step(&cfg, InstallState::PlaceBinary, StepOutcome::Failure);
    assert!(matches!(s, InstallState::Failed));
    assert!(matches!(flow_outcome(s), FlowOutcome::Error));
}

#[test]
fn rejected_toolchain_aborts_before_bootstrap() {
    let cfg = unix_config(InstallMode::NoPrompts, Some(String::from("/opt/py")));
    let s = install_step(&cfg, InstallState::RegisterToolchain, StepOutcome::Failure);
    assert!(matches!(s, InstallState::Failed));
}

#[test]
fn path_advice_never_fails_the_flow() {
    let cfg = unix_config(InstallMode::Default, None);
    let s = install_step(&cfg, InstallState::ReportPathAdvice, StepOutcome::Failure);
    assert!(matches!(s, InstallState::Done));
}

#[test]
fn env_file_script_for_default_home() {
    let script = render_env_file(false, "$HOME/.rye");
    assert_eq!(
        script,
        "\n# rye shell setup\ncase \":${PATH}:\" in\n  *:\"$HOME/.rye/shims\":*)\n    ;;\n  *)\n    export PATH=\"$HOME/.rye/shims:$PATH\"\n    ;;\nesac\n\n"
    );
}

#[test]
fn env_file_script_for_custom_home_exports_the_override() {
    let script = render_env_file(true, "/custom/rye");
    assert_eq!(
        script,
        "\n# rye shell setup\nexport RYE_HOME=\"/custom/rye\"\ncase \":${PATH}:\" in\n  *:\"/custom/rye/shims\":*)\n    ;;\n  *)\n    export PATH=\"/custom/rye/shims:$PATH\"\n    ;;\nesac\n\n"
    );
}

#[test]
fn windows_writes_no_env_file() {
    let cfg = InstallConfig {
        mode: InstallMode::NoPrompts,
        toolchain: None,
        custom_home: false,
        home: String::from("%USERPROFILE%\\.rye"),
        platform: Platform::Windows,
    };
    match install_effect_of(&cfg, InstallState::WriteEnvFile) {
        InstallEffect::WriteEnvFile { script } => assert!(script.is_none()),
        _ => panic!("env file effect expected"),
    }
}

#[test]
fn only_compatible_cpython_toolchains_are_allowed() {
    assert_eq!(
        validate_toolchain(&String::from("cpython"), true),
        ToolchainVerdict::Allowed
    );
    assert_eq!(
        validate_toolchain(&String::from("pypy"), true),
        ToolchainVerdict::WrongKind
    );
    assert_eq!(
        validate_toolchain(&String::from("cpython"), false),
        ToolchainVerdict::Incompatible
    );
}

#[test]
fn path_advice_depends_on_platform_and_path() {
    assert!(matches!(
        path_advice(Platform::UnixLike, true, false),
        PathAdvice::Nothing
    ));
    assert!(matches!(
        path_advice(Platform::UnixLike, false, true),
        PathAdvice::SourceEnvFile { fish: true }
    ));
    assert!(matches!(
        path_advice(Platform::Windows, true, false),
        PathAdvice::AddToPathManually
    ));
}
