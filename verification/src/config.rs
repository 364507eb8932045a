//! The slice of the persisted settings document that bootstrap reads and
//! writes.
//!
//! The process-wide settings handle is a collaborator; bootstrap borrows the
//! fields below from it, patches them, and leaves flushing the document to
//! the caller.

use vstd::prelude::*;

verus! {

/// The persisted settings fields the bootstrap sequence consumes and
/// produces. An absent field (`None`) has never been written.
#[derive(Debug, PartialEq, Eq)]
pub struct VergeConfig {
    /// The configured mixed port, if one was ever persisted.
    pub verge_mixed_port: Option<u16>,
    /// Whether a random port is probed at startup instead of the configured
    /// one.
    pub enable_random_port: Option<bool>,
    /// Whether window creation is suppressed at startup.
    pub enable_silent_start: Option<bool>,
    /// The last window geometry, as `[width, height, x, y]` in logical
    /// units.
    pub window_size_position: Option<Vec<i64>>,
    /// Whether the window was maximized when the geometry was saved.
    pub window_is_maximized: Option<bool>,
}

impl VergeConfig {
    /// A settings document with no field ever written.
    pub fn new() -> (cfg: VergeConfig)
        ensures
            cfg.verge_mixed_port is None,
            cfg.enable_random_port is None,
            cfg.enable_silent_start is None,
            cfg.window_size_position is None,
            cfg.window_is_maximized is None,
    {
        VergeConfig {
            verge_mixed_port: None,
            enable_random_port: None,
            enable_silent_start: None,
            window_size_position: None,
            window_is_maximized: None,
        }
    }

    /// Patch the mixed port and nothing else.
    pub fn patch_mixed_port(&mut self, port: u16)
        ensures
            final(self).verge_mixed_port == Some(port),
            final(self).enable_random_port == old(self).enable_random_port,
            final(self).enable_silent_start == old(self).enable_silent_start,
            final(self).window_size_position == old(self).window_size_position,
            final(self).window_is_maximized == old(self).window_is_maximized,
    {
        self.verge_mixed_port = Some(port);
    }
}

} // verus!
