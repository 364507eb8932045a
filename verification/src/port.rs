//! Resolution of the local mixed port the proxy core listens on.
//!
//! The port is either the persisted configured value, the proxy core's
//! built-in default, or — when random ports are enabled — whatever port a
//! bind-then-release probe on the loopback interface reported. The probe
//! itself is outside work; its outcome arrives here as an `Option<u16>`
//! (`None` when the probe failed), and the probe-to-bind race of that
//! pattern is accepted: the probed port is free at probe time only.

use vstd::prelude::*;

verus! {

/// The fallback port: the configured mixed port when present, else the
/// proxy core's built-in default.
pub open spec fn fallback_port(configured: Option<u16>, clash_default: u16) -> u16 {
    match configured {
        Some(p) => p,
        None => clash_default,
    }
}

/// The port the resolver settles on: the probed port when random ports are
/// enabled and the probe succeeded; the fallback otherwise. An absent
/// `enable_random` flag counts as disabled.
pub open spec fn resolved_port(
    enable_random: Option<bool>,
    configured: Option<u16>,
    clash_default: u16,
    probe: Option<u16>,
) -> u16 {
    if enable_random == Some(true) {
        match probe {
            Some(p) => p,
            None => fallback_port(configured, clash_default),
        }
    } else {
        fallback_port(configured, clash_default)
    }
}

/// Pick the port a successful probe reported, or degrade to the fallback.
/// Never fails: a failed probe (`probe == None`) only selects the fallback.
pub fn find_unused_port(probe: Option<u16>, configured: Option<u16>, clash_default: u16) -> (port:
    u16)
    ensures
        port == match probe {
            Some(p) => p,
            None => fallback_port(configured, clash_default),
        },
{
    match probe {
        Some(p) => p,
        None => match configured {
            Some(p) => p,
            None => clash_default,
        },
    }
}

/// With random ports disabled the result is the configured port when
/// present, else the proxy core's default, whatever the probe said; and a
/// failed probe under random ports falls back to exactly the same value.
pub proof fn lemma_port_fallback_identical(
    configured: Option<u16>,
    clash_default: u16,
    probe: Option<u16>,
)
    ensures
        resolved_port(Some(false), configured, clash_default, probe) == fallback_port(
            configured,
            clash_default,
        ),
        resolved_port(None, configured, clash_default, probe) == fallback_port(
            configured,
            clash_default,
        ),
        resolved_port(Some(true), configured, clash_default, None) == fallback_port(
            configured,
            clash_default,
        ),
{
}

/// Resolve the mixed port from the persisted flags and the probe outcome.
pub fn resolve_port(
    enable_random: Option<bool>,
    configured: Option<u16>,
    clash_default: u16,
    probe: Option<u16>,
) -> (port: u16)
    ensures
        port == resolved_port(enable_random, configured, clash_default, probe),
{
    let random = match enable_random {
        Some(b) => b,
        None => false,
    };
    if random {
        find_unused_port(probe, configured, clash_default)
    } else {
        match configured {
            Some(p) => p,
            None => clash_default,
        }
    }
}

} // verus!
