//! Startup orchestration for a desktop proxy-client shell.
//!
//! The crate decides everything the bootstrap sequence has to decide —
//! which local port the proxy core listens on, whether a persisted window
//! rectangle may be restored, how the single main window is created or
//! refocused, how a custom-scheme import request is parsed and reported,
//! and in which order the setup steps run — while the surrounding
//! application performs the outside work (binding sockets, talking to the
//! window system, fetching profiles) and feeds the results back in as
//! plain values.

use vstd::prelude::*;

pub mod boot;
pub mod clash;
pub mod config;
pub mod geometry;
pub mod port;
pub mod scheme;
pub mod window;

verus! {

/// The display name the shell uses for the window title and for
/// notifications.
pub fn app_display_name() -> (name: &'static str)
    ensures
        name@ == "Clash Verge"@,
{
    "Clash Verge"
}

} // verus!
