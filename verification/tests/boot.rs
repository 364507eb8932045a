use verge_bootstrap::app_display_name;
use verge_bootstrap::boot::resolve_reset;
use verge_bootstrap::boot::resolve_setup;
use verge_bootstrap::boot::setup_steps;
use verge_bootstrap::boot::step_policy;
use verge_bootstrap::boot::BootLog;
use verge_bootstrap::boot::Step;
use verge_bootstrap::boot::StepPolicy;
use verge_bootstrap::clash::read_mixed_port;
use verge_bootstrap::config::VergeConfig;
use verge_bootstrap::window::PlatformProfile;
use verge_bootstrap::window::WindowAction;
use verge_bootstrap::window::WindowLifecycle;
use verge_bootstrap::window::WindowState;

#[test]
fn setup_runs_in_the_fixed_order() {
    let steps = setup_steps(true, true);
    assert_eq!(
        steps,
        vec![
            Step::InitResources,
            Step::InitScheme,
            Step::StartupScript,
            Step::ResolvePort,
            Step::InitConfig,
            Step::LaunchCore,
            Step::EmbedServer,
            Step::TrayUpdate,
            Step::CreateWindow,
            Step::InitLaunch,
            Step::InitSysproxy,
            Step::UpdateSystrayPart,
            Step::InitHotkey,
            Step::InitTimer,
            Step::SchemeImport,
        ]
    );
}

#[test]
fn silent_start_skips_window_creation() {
    let steps = setup_steps(false, false);
    assert!(!steps.contains(&Step::CreateWindow));
    assert!(!steps.contains(&Step::SchemeImport));
    assert_eq!(steps.len(), 13);
}

#[test]
fn only_the_core_launch_is_critical() {
    let all = setup_steps(true, true);
    for step in all {
        if step == Step::LaunchCore {
            assert_eq!(step_policy(step), StepPolicy::Critical);
        } else {
            assert_eq!(step_policy(step), StepPolicy::LogAndContinue);
        }
    }
}

#[test]
fn reset_restores_proxy_then_stops_core() {
    let steps = resolve_reset();
    assert_eq!(steps, vec![Step::ResetSysproxy, Step::StopCore]);
    for step in steps {
        assert_eq!(step_policy(step), StepPolicy::LogAndContinue);
    }
}

#[test]
fn errors_are_recorded_and_never_escalated() {
    let mut log = BootLog::new();
    log.record(Step::InitResources, true);
    log.record(Step::TrayUpdate, false);
    log.record(Step::InitHotkey, false);
    assert_eq!(log.failed, vec![Step::TrayUpdate, Step::InitHotkey]);
    assert!(!log.core_failed);
}

#[test]
fn core_launch_failure_is_observable() {
    let mut log = BootLog::new();
    log.record(Step::LaunchCore, false);
    assert!(log.core_failed);
    assert_eq!(log.failed, vec![Step::LaunchCore]);
}

#[test]
fn resolve_setup_persists_and_mirrors_the_port() {
    let mut cfg = VergeConfig::new();
    cfg.verge_mixed_port = Some(7890);
    cfg.enable_random_port = Some(false);
    let plan = resolve_setup(&mut cfg, 7891, Some(60000), None);
    assert_eq!(plan.port, 7890);
    assert_eq!(cfg.verge_mixed_port, Some(7890));
    // The patch for the proxy core carries the same port under `mixed-port`.
    assert_eq!(read_mixed_port(&plan.clash_patch), Some(7890));
    assert_eq!(plan.scheme_import, None);
}

#[test]
fn resolve_setup_random_port_falls_back_on_probe_failure() {
    let mut cfg = VergeConfig::new();
    cfg.enable_random_port = Some(true);
    let plan = resolve_setup(&mut cfg, 7891, None, None);
    assert_eq!(plan.port, 7891);
    assert_eq!(cfg.verge_mixed_port, Some(7891));
    assert_eq!(read_mixed_port(&plan.clash_patch), Some(7891));
}

#[test]
fn scheme_argument_is_carried_into_the_plan() {
    let mut cfg = VergeConfig::new();
    let arg = String::from("clash://install-config/?url=https://example.com/p.yaml");
    let plan = resolve_setup(&mut cfg, 7891, None, Some(arg.clone()));
    assert_eq!(plan.scheme_import, Some(arg));
}

#[test]
fn cold_start_creates_a_visible_centered_default_window() {
    // Silent start disabled, nothing persisted: the platform default path.
    let mut cfg = VergeConfig::new();
    cfg.enable_silent_start = Some(false);
    let plan = resolve_setup(&mut cfg, 7891, None, None);
    assert!(plan.create_window);

    let mut lifecycle = WindowLifecycle::new();
    match lifecycle.create_window(&cfg, PlatformProfile::Windows) {
        WindowAction::Build(build) => {
            assert_eq!((build.width, build.height), (800, 636));
            assert!(build.center);
        }
        WindowAction::Focus => panic!("no window exists yet"),
    }
    lifecycle.window_built(true);
    lifecycle.window_shown();
    assert_eq!(lifecycle.state, WindowState::Visible);
}

#[test]
fn silent_start_creates_no_window() {
    let mut cfg = VergeConfig::new();
    cfg.enable_silent_start = Some(true);
    let plan = resolve_setup(&mut cfg, 7891, None, None);
    assert!(!plan.create_window);
    assert!(!setup_steps(plan.create_window, false).contains(&Step::CreateWindow));
}

#[test]
fn the_shell_announces_itself_by_name() {
    assert_eq!(app_display_name(), "Clash Verge");
}
