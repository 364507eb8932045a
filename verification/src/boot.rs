//! The ordered bootstrap sequence and its failure policy.
//!
//! Bootstrap is a fixed, non-resumable pipeline. Every step is fatal-logged
//! — its failure is recorded and the pipeline continues — except the core
//! launch, whose failure is additionally escalated into a distinct,
//! observable state (the proxy core is the product's reason to exist). The
//! steps themselves are outside work; this module fixes their order, their
//! policy, and the decisions between them, and `resolve_setup` patches the
//! settings and builds the proxy-core patch along the way.

use vstd::prelude::*;

use crate::clash::build_port_mapping;
use crate::clash::empty_contents;
use crate::clash::mapping_contents;
use crate::clash::mixed_port_key;
use crate::config::VergeConfig;
use crate::port::resolve_port;
use crate::port::resolved_port;

verus! {

/// One step of the bootstrap or teardown pipeline.
#[derive(Clone, Copy, Debug, PartialEq, Eq, Structural)]
pub enum Step {
    /// Unpack bundled resources.
    InitResources,
    /// Register the custom URL scheme.
    InitScheme,
    /// Run the user's startup script.
    StartupScript,
    /// Resolve the mixed port and persist it.
    ResolvePort,
    /// Initialize the configuration core.
    InitConfig,
    /// Start the proxy-core child process.
    LaunchCore,
    /// Start the embedded singleton server.
    EmbedServer,
    /// Refresh the system tray.
    TrayUpdate,
    /// Create the main window.
    CreateWindow,
    /// Set up launch-at-login.
    InitLaunch,
    /// Set up the system proxy.
    InitSysproxy,
    /// Refresh the tray menu.
    UpdateSystrayPart,
    /// Register global hotkeys.
    InitHotkey,
    /// Start the background timer.
    InitTimer,
    /// Import the profile named on the command line.
    SchemeImport,
    /// Restore the system proxy to its prior state.
    ResetSysproxy,
    /// Stop the proxy-core child process.
    StopCore,
}

/// How a step's failure is treated.
#[derive(Clone, Copy, Debug, PartialEq, Eq, Structural)]
pub enum StepPolicy {
    /// Log the error and continue with the next step.
    LogAndContinue,
    /// Log the error, continue, and escalate into an observable broken
    /// state.
    Critical,
}

/// Every step is fatal-logged except the core launch.
pub open spec fn policy_spec(step: Step) -> StepPolicy {
    if step == Step::LaunchCore {
        StepPolicy::Critical
    } else {
        StepPolicy::LogAndContinue
    }
}

/// The failure policy of a step.
pub fn step_policy(step: Step) -> (policy: StepPolicy)
    ensures
        policy == policy_spec(step),
{
    match step {
        Step::LaunchCore => StepPolicy::Critical,
        _ => StepPolicy::LogAndContinue,
    }
}

/// The fixed bootstrap order. Window creation is skipped under silent
/// start; the one-shot import runs only when a command-line argument named
/// a scheme URL, and runs last, after every other step.
pub open spec fn setup_steps_spec(create_window: bool, has_scheme_arg: bool) -> Seq<Step> {
    let head = seq![
        Step::InitResources,
        Step::InitScheme,
        Step::StartupScript,
        Step::ResolvePort,
        Step::InitConfig,
        Step::LaunchCore,
        Step::EmbedServer,
        Step::TrayUpdate,
    ];
    let with_window = if create_window {
        head.push(Step::CreateWindow)
    } else {
        head
    };
    let with_tail = with_window + seq![
        Step::InitLaunch,
        Step::InitSysproxy,
        Step::UpdateSystrayPart,
        Step::InitHotkey,
        Step::InitTimer,
    ];
    if has_scheme_arg {
        with_tail.push(Step::SchemeImport)
    } else {
        with_tail
    }
}

/// The bootstrap steps, in the order they run.
pub fn setup_steps(create_window: bool, has_scheme_arg: bool) -> (steps: Vec<Step>)
    ensures
        steps@ == setup_steps_spec(create_window, has_scheme_arg),
{
    let mut steps: Vec<Step> = Vec::new();
    steps.push(Step::InitResources);
    steps.push(Step::InitScheme);
    steps.push(Step::StartupScript);
    steps.push(Step::ResolvePort);
    steps.push(Step::InitConfig);
    steps.push(Step::LaunchCore);
    steps.push(Step::EmbedServer);
    steps.push(Step::TrayUpdate);
    if create_window {
        steps.push(Step::CreateWindow);
    }
    steps.push(Step::InitLaunch);
    steps.push(Step::InitSysproxy);
    steps.push(Step::UpdateSystrayPart);
    steps.push(Step::InitHotkey);
    steps.push(Step::InitTimer);
    if has_scheme_arg {
        steps.push(Step::SchemeImport);
    }
    proof {
        assert(steps@ =~= setup_steps_spec(create_window, has_scheme_arg));
    }
    steps
}

/// The teardown order: restore the system proxy first, then stop the core.
/// Both steps are fatal-logged, never hard, so a failed proxy restore does
/// not block core shutdown.
pub fn resolve_reset() -> (steps: Vec<Step>)
    ensures
        steps@ == seq![Step::ResetSysproxy, Step::StopCore],
        forall|i: int| 0 <= i < steps@.len() ==> policy_spec(steps@[i])
            == StepPolicy::LogAndContinue,
{
    let mut steps: Vec<Step> = Vec::new();
    steps.push(Step::ResetSysproxy);
    steps.push(Step::StopCore);
    proof {
        assert(steps@ =~= seq![Step::ResetSysproxy, Step::StopCore]);
    }
    steps
}

/// The record a run of the pipeline leaves behind: which steps failed, and
/// whether the critical one did.
#[derive(Debug, PartialEq, Eq)]
pub struct BootLog {
    /// The failed steps, in the order they failed.
    pub failed: Vec<Step>,
    /// The distinct, observable state a failed core launch escalates to.
    pub core_failed: bool,
}

impl BootLog {
    /// A run that has recorded nothing yet.
    pub fn new() -> (log: BootLog)
        ensures
            log.failed@ == Seq::<Step>::empty(),
            !log.core_failed,
    {
        BootLog { failed: Vec::new(), core_failed: false }
    }

    /// Record one step's result. An error is recorded and never escalated
    /// beyond the log — except that a failed core launch also sets the
    /// broken-core state — so the pipeline always continues.
    pub fn record(&mut self, step: Step, ok: bool)
        ensures
            ok ==> final(self).failed@ == old(self).failed@ && final(self).core_failed == old(
                self,
            ).core_failed,
            !ok ==> final(self).failed@ == old(self).failed@.push(step) && final(self).core_failed
                == (old(self).core_failed || policy_spec(step) == StepPolicy::Critical),
    {
        if !ok {
            let policy = step_policy(step);
            if policy == StepPolicy::Critical {
                self.core_failed = true;
            }
            self.failed.push(step);
        }
    }
}

/// What the rest of bootstrap needs once the settings are patched.
pub struct SetupPlan {
    /// The resolved mixed port.
    pub port: u16,
    /// The one-entry patch handed to the proxy core.
    pub clash_patch: serde_yaml::Mapping,
    /// Whether a main window is created (skipped under silent start).
    pub create_window: bool,
    /// The command-line argument to import, when one was given.
    pub scheme_import: Option<String>,
}

/// Resolve the mixed port, patch it into the settings, and build the
/// proxy-core patch; decide whether a window is created and whether an
/// import runs. `probe` is the outcome of the bind probe the caller ran
/// (`None` when it failed or was not run); it matters only when random
/// ports are enabled.
pub fn resolve_setup(
    cfg: &mut VergeConfig,
    clash_default: u16,
    probe: Option<u16>,
    scheme_arg: Option<String>,
) -> (plan: SetupPlan)
    ensures
        plan.port == resolved_port(
            old(cfg).enable_random_port,
            old(cfg).verge_mixed_port,
            clash_default,
            probe,
        ),
        final(cfg).verge_mixed_port == Some(plan.port),
        final(cfg).enable_random_port == old(cfg).enable_random_port,
        final(cfg).enable_silent_start == old(cfg).enable_silent_start,
        final(cfg).window_size_position == old(cfg).window_size_position,
        final(cfg).window_is_maximized == old(cfg).window_is_maximized,
        mapping_contents(plan.clash_patch) == empty_contents().insert(
            mixed_port_key(),
            plan.port as int,
        ),
        plan.create_window == (old(cfg).enable_silent_start != Some(true)),
        plan.scheme_import == scheme_arg,
{
    let port = resolve_port(cfg.enable_random_port, cfg.verge_mixed_port, clash_default, probe);
    cfg.patch_mixed_port(port);
    let clash_patch = build_port_mapping(port);
    let silent = match cfg.enable_silent_start {
        Some(b) => b,
        None => false,
    };
    SetupPlan { port, clash_patch, create_window: !silent, scheme_import: scheme_arg }
}

} // verus!
