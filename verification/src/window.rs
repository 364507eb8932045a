//! Lifecycle of the single main window.
//!
//! The window system itself is outside work: this module decides, and the
//! caller performs. `create_window` either asks for the existing window to be
//! refocused or hands back a complete build plan (geometry, chrome,
//! maximization); `window_built` and `window_shown` feed the outcome of the
//! outside work back into the state machine. `save_window_size_position`
//! patches the live geometry back into the persisted settings.

use vstd::prelude::*;

use crate::config::VergeConfig;
use crate::geometry::MIN_HEIGHT;
use crate::geometry::MIN_WIDTH;
use crate::geometry::PlacementDecision;
use crate::geometry::size_pos_view;
use crate::geometry::validate;
use crate::geometry::validate_spec;

verus! {

/// The platform the shell runs on; each platform fixes its own window
/// chrome and default size.
#[derive(Clone, Copy, Debug, PartialEq, Eq, Structural)]
pub enum PlatformProfile {
    Windows,
    MacOs,
    Linux,
}

/// The fixed chrome of the main window on one platform.
#[derive(Clone, Copy, Debug, PartialEq, Eq, Structural)]
pub struct ChromeStyle {
    /// Native window decorations.
    pub decorations: bool,
    /// Transparent window background.
    pub transparent: bool,
    /// Hide the title text (native decorations only).
    pub hidden_title: bool,
    /// Draw the title bar as an overlay (native decorations only).
    pub overlay_title_bar: bool,
    /// Apply a drop shadow after creation.
    pub shadow: bool,
}

/// The chrome each platform gets: borderless and transparent on Windows and
/// Linux (with a drop shadow only on Windows), native decorations with an
/// overlay title bar on macOS.
pub open spec fn chrome_spec(platform: PlatformProfile) -> ChromeStyle {
    match platform {
        PlatformProfile::Windows => ChromeStyle {
            decorations: false,
            transparent: true,
            hidden_title: false,
            overlay_title_bar: false,
            shadow: true,
        },
        PlatformProfile::MacOs => ChromeStyle {
            decorations: true,
            transparent: false,
            hidden_title: true,
            overlay_title_bar: true,
            shadow: true,
        },
        PlatformProfile::Linux => ChromeStyle {
            decorations: false,
            transparent: true,
            hidden_title: false,
            overlay_title_bar: false,
            shadow: false,
        },
    }
}

/// The default window width of a platform, in logical units.
pub open spec fn default_width_spec(platform: PlatformProfile) -> i64 {
    800
}

/// The default window height of a platform, in logical units.
pub open spec fn default_height_spec(platform: PlatformProfile) -> i64 {
    match platform {
        PlatformProfile::Windows => 636,
        PlatformProfile::MacOs => 642,
        PlatformProfile::Linux => 642,
    }
}

/// The chrome the main window gets on a platform.
pub fn platform_chrome(platform: PlatformProfile) -> (chrome: ChromeStyle)
    ensures
        chrome == chrome_spec(platform),
{
    match platform {
        PlatformProfile::Windows => ChromeStyle {
            decorations: false,
            transparent: true,
            hidden_title: false,
            overlay_title_bar: false,
            shadow: true,
        },
        PlatformProfile::MacOs => ChromeStyle {
            decorations: true,
            transparent: false,
            hidden_title: true,
            overlay_title_bar: true,
            shadow: true,
        },
        PlatformProfile::Linux => ChromeStyle {
            decorations: false,
            transparent: true,
            hidden_title: false,
            overlay_title_bar: false,
            shadow: false,
        },
    }
}

/// The default window size of a platform, in logical units.
pub fn platform_default_size(platform: PlatformProfile) -> (size: (i64, i64))
    ensures
        size.0 == default_width_spec(platform),
        size.1 == default_height_spec(platform),
{
    match platform {
        PlatformProfile::Windows => (800, 636),
        PlatformProfile::MacOs => (800, 642),
        PlatformProfile::Linux => (800, 642),
    }
}

/// Everything the window system needs to build the main window.
#[derive(Clone, Copy, Debug, PartialEq, Eq, Structural)]
pub struct WindowPlan {
    /// Inner width in logical units.
    pub width: i64,
    /// Inner height in logical units.
    pub height: i64,
    /// Top-left position in logical units; meaningful only when `center` is
    /// false.
    pub x: i64,
    pub y: i64,
    /// Center the window instead of positioning it.
    pub center: bool,
    /// Smallest inner size the window may be resized to.
    pub min_width: i64,
    pub min_height: i64,
    /// Platform chrome.
    pub chrome: ChromeStyle,
    /// The window is built hidden and presented later.
    pub visible: bool,
    pub fullscreen: bool,
    /// Maximize right after creation.
    pub maximize: bool,
}

/// The build plan for a fresh main window: the persisted geometry when it
/// validates, the platform default centered otherwise, under the platform's
/// chrome, built hidden, maximized afterwards when that was persisted.
pub open spec fn build_plan_spec(
    size_pos: Option<Seq<i64>>,
    is_maximized: Option<bool>,
    platform: PlatformProfile,
) -> WindowPlan {
    let placed = match validate_spec(size_pos) {
        PlacementDecision::UsePersisted(r) => (r.width, r.height, r.x, r.y, false),
        PlacementDecision::UsePlatformDefault => (
            default_width_spec(platform),
            default_height_spec(platform),
            0,
            0,
            true,
        ),
    };
    WindowPlan {
        width: placed.0,
        height: placed.1,
        x: placed.2,
        y: placed.3,
        center: placed.4,
        min_width: MIN_WIDTH,
        min_height: MIN_HEIGHT,
        chrome: chrome_spec(platform),
        visible: false,
        fullscreen: false,
        maximize: is_maximized == Some(true),
    }
}

/// Where the single main window stands.
#[derive(Clone, Copy, Debug, PartialEq, Eq, Structural)]
pub enum WindowState {
    /// No window exists (never built, or building failed).
    NoWindow,
    /// Built but not yet presented.
    Hidden,
    /// Presented.
    Visible,
    /// Presented and holding focus.
    Focused,
}

/// The state after one `create_window` call: an existing window is focused,
/// no window stays none until the build outcome arrives.
pub open spec fn ensure_next(state: WindowState) -> WindowState {
    if state == WindowState::NoWindow {
        WindowState::NoWindow
    } else {
        WindowState::Focused
    }
}

/// Whether one `create_window` call asks for a build.
pub open spec fn ensure_builds(state: WindowState) -> bool {
    state == WindowState::NoWindow
}

/// How many main windows exist in a state.
pub open spec fn window_count(state: WindowState) -> nat {
    if state == WindowState::NoWindow {
        0
    } else {
        1
    }
}

/// What the window system is asked to do.
#[derive(Clone, Copy, Debug, PartialEq, Eq, Structural)]
pub enum WindowAction {
    /// Un-minimize, show and focus the existing window.
    Focus,
    /// Build a fresh window from the plan.
    Build(WindowPlan),
}

/// The single main window of the process.
#[derive(Clone, Copy, Debug, PartialEq, Eq, Structural)]
pub struct WindowLifecycle {
    pub state: WindowState,
}

impl WindowLifecycle {
    /// A process that has not created its window yet.
    pub fn new() -> (lifecycle: WindowLifecycle)
        ensures
            lifecycle.state == WindowState::NoWindow,
    {
        WindowLifecycle { state: WindowState::NoWindow }
    }

    /// Ensure the single main window: focus it when it exists (making the
    /// call idempotent — a second window is never built), else plan one.
    /// The state moves to `Focused`, or stays `NoWindow` until
    /// `window_built` reports the build outcome.
    pub fn create_window(&mut self, cfg: &VergeConfig, platform: PlatformProfile) -> (action:
        WindowAction)
        ensures
            final(self).state == ensure_next(old(self).state),
            action matches WindowAction::Build(plan) ==> ensure_builds(old(self).state) && plan
                == build_plan_spec(
                size_pos_view(cfg.window_size_position),
                cfg.window_is_maximized,
                platform,
            ),
            action is Focus ==> !ensure_builds(old(self).state),
    {
        match self.state {
            WindowState::NoWindow => {
                let decision = validate(&cfg.window_size_position);
                let placed: (i64, i64, i64, i64, bool) = match decision {
                    PlacementDecision::UsePersisted(r) => (r.width, r.height, r.x, r.y, false),
                    PlacementDecision::UsePlatformDefault => {
                        let size = platform_default_size(platform);
                        (size.0, size.1, 0, 0, true)
                    },
                };
                let chrome = platform_chrome(platform);
                let maximize = match cfg.window_is_maximized {
                    Some(b) => b,
                    None => false,
                };
                WindowAction::Build(
                    WindowPlan {
                        width: placed.0,
                        height: placed.1,
                        x: placed.2,
                        y: placed.3,
                        center: placed.4,
                        min_width: MIN_WIDTH,
                        min_height: MIN_HEIGHT,
                        chrome,
                        visible: false,
                        fullscreen: false,
                        maximize,
                    },
                )
            },
            _ => {
                self.state = WindowState::Focused;
                WindowAction::Focus
            },
        }
    }

    /// Record the outcome of the build the window system performed. A
    /// failed build leaves the process without a window (it keeps running
    /// tray-only); a successful one leaves the window built but hidden.
    pub fn window_built(&mut self, created: bool)
        requires
            old(self).state == WindowState::NoWindow,
        ensures
            final(self).state == if created {
                WindowState::Hidden
            } else {
                WindowState::NoWindow
            },
    {
        if created {
            self.state = WindowState::Hidden;
        }
    }

    /// Record that the shell presented the window.
    pub fn window_shown(&mut self)
        requires
            old(self).state != WindowState::NoWindow,
        ensures
            final(self).state == WindowState::Visible,
    {
        self.state = WindowState::Visible;
    }
}

/// What the window system reports about the live window, already converted
/// to logical units by the caller (physical values divided by the scale
/// factor).
#[derive(Clone, Copy, Debug, PartialEq, Eq, Structural)]
pub struct WindowMetrics {
    /// Inner width in logical units.
    pub width: i64,
    /// Inner height in logical units.
    pub height: i64,
    /// Outer top-left position in logical units.
    pub x: i64,
    pub y: i64,
    /// Whether the window is maximized.
    pub is_maximized: bool,
}

/// Why the live geometry could not be persisted.
#[derive(Clone, Copy, Debug, PartialEq, Eq, Structural)]
pub enum GeometryError {
    /// No window exists; asking to persist its geometry breaks the caller's
    /// contract and is surfaced, not swallowed.
    NoWindow,
}

impl GeometryError {
    /// The error text surfaced to the caller.
    pub fn message(&self) -> (text: &'static str)
        ensures
            text@ == "failed to get window"@,
    {
        "failed to get window"
    }
}

/// Patch the live window geometry into the persisted settings. The
/// maximized flag is always written; the rectangle only when the window is
/// not maximized and meets the minimum size. `metrics == None` (no window)
/// is an error and leaves the settings untouched.
pub fn save_window_size_position(cfg: &mut VergeConfig, metrics: &Option<WindowMetrics>) -> (result:
    Result<(), GeometryError>)
    ensures
        match result {
            Ok(_) => {
                &&& *metrics matches Some(m)
                &&& final(cfg).window_is_maximized == Some(m.is_maximized)
                &&& size_pos_view(final(cfg).window_size_position) == (if !m.is_maximized
                    && m.width >= MIN_WIDTH && m.height >= MIN_HEIGHT {
                    Some(seq![m.width, m.height, m.x, m.y])
                } else {
                    size_pos_view(old(cfg).window_size_position)
                })
                &&& final(cfg).verge_mixed_port == old(cfg).verge_mixed_port
                &&& final(cfg).enable_random_port == old(cfg).enable_random_port
                &&& final(cfg).enable_silent_start == old(cfg).enable_silent_start
            },
            Err(e) => {
                &&& *metrics is None
                &&& e == GeometryError::NoWindow
                &&& *final(cfg) == *old(cfg)
            },
        },
{
    match metrics {
        Some(m) => {
            self_patch_geometry(cfg, *m);
            Ok(())
        },
        None => Err(GeometryError::NoWindow),
    }
}

/// Write the maximized flag and, when the rectangle qualifies, the
/// size-and-position list.
fn self_patch_geometry(cfg: &mut VergeConfig, m: WindowMetrics)
    ensures
        final(cfg).window_is_maximized == Some(m.is_maximized),
        size_pos_view(final(cfg).window_size_position) == (if !m.is_maximized && m.width
            >= MIN_WIDTH && m.height >= MIN_HEIGHT {
            Some(seq![m.width, m.height, m.x, m.y])
        } else {
            size_pos_view(old(cfg).window_size_position)
        }),
        final(cfg).verge_mixed_port == old(cfg).verge_mixed_port,
        final(cfg).enable_random_port == old(cfg).enable_random_port,
        final(cfg).enable_silent_start == old(cfg).enable_silent_start,
{
    cfg.window_is_maximized = Some(m.is_maximized);
    if !m.is_maximized && m.width >= MIN_WIDTH && m.height >= MIN_HEIGHT {
        let mut list: Vec<i64> = Vec::new();
        list.push(m.width);
        list.push(m.height);
        list.push(m.x);
        list.push(m.y);
        proof {
            assert(list@ =~= seq![m.width, m.height, m.x, m.y]);
        }
        cfg.window_size_position = Some(list);
    }
}

/// Geometry persistence is a round trip: the list that
/// `save_window_size_position` writes for a non-maximized window of at
/// least the minimum size validates back to exactly that rectangle.
pub proof fn lemma_persist_round_trip(m: WindowMetrics)
    requires
        !m.is_maximized,
        m.width >= MIN_WIDTH,
        m.height >= MIN_HEIGHT,
    ensures
        validate_spec(Some(seq![m.width, m.height, m.x, m.y]))
            == PlacementDecision::UsePersisted(
            (crate::geometry::WindowRect { width: m.width, height: m.height, x: m.x, y: m.y }),
        ),
{
    crate::geometry::lemma_geometry_round_trip(m.width, m.height, m.x, m.y);
}

/// Ensuring the window twice in succession while one exists focuses it both
/// times and never builds a second: exactly one window remains, focused.
pub proof fn lemma_create_window_idempotent(state: WindowState)
    requires
        state != WindowState::NoWindow,
    ensures
        ensure_next(state) == WindowState::Focused,
        ensure_next(ensure_next(state)) == WindowState::Focused,
        !ensure_builds(state),
        !ensure_builds(ensure_next(state)),
        window_count(ensure_next(ensure_next(state))) == 1,
{
}

} // verus!
