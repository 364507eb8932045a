use verge_bootstrap::port::find_unused_port;
use verge_bootstrap::port::resolve_port;

#[test]
fn random_disabled_uses_configured_port() {
    assert_eq!(resolve_port(Some(false), Some(7890), 7891, Some(60000)), 7890);
    assert_eq!(resolve_port(None, Some(7890), 7891, Some(60000)), 7890);
}

#[test]
fn random_disabled_without_configured_uses_clash_default() {
    assert_eq!(resolve_port(Some(false), None, 7891, Some(60000)), 7891);
    assert_eq!(resolve_port(None, None, 7891, None), 7891);
}

#[test]
fn random_enabled_uses_probed_port() {
    assert_eq!(resolve_port(Some(true), Some(7890), 7891, Some(60000)), 60000);
}

#[test]
fn random_enabled_probe_failure_falls_back_identically() {
    assert_eq!(resolve_port(Some(true), Some(7890), 7891, None), 7890);
    assert_eq!(resolve_port(Some(true), None, 7891, None), 7891);
}

#[test]
fn probe_outcome_decides_find_unused_port() {
    assert_eq!(find_unused_port(Some(52345), Some(7890), 7891), 52345);
    assert_eq!(find_unused_port(None, Some(7890), 7891), 7890);
    assert_eq!(find_unused_port(None, None, 7891), 7891);
}
