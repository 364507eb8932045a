use verge_bootstrap::scheme::import_outcome;
use verge_bootstrap::scheme::notification_body;
use verge_bootstrap::scheme::resolve_scheme;
use verge_bootstrap::scheme::should_log_failure;
use verge_bootstrap::scheme::ImportError;
use verge_bootstrap::scheme::ImportOutcome;

#[test]
fn slashed_prefix_is_stripped() {
    let req = resolve_scheme("clash://install-config/?url=https://example.com/p.yaml");
    assert_eq!(req.url, "https://example.com/p.yaml");
}

#[test]
fn plain_prefix_is_stripped() {
    let req = resolve_scheme("clash://install-config?url=https://example.com/p.yaml");
    assert_eq!(req.url, "https://example.com/p.yaml");
}

#[test]
fn repeated_prefix_is_stripped_repeatedly() {
    let req = resolve_scheme(
        "clash://install-config/?url=clash://install-config/?url=https://example.com/p.yaml",
    );
    assert_eq!(req.url, "https://example.com/p.yaml");
}

#[test]
fn unrecognized_input_is_attempted_verbatim() {
    let req = resolve_scheme("https://example.com/p.yaml");
    assert_eq!(req.url, "https://example.com/p.yaml");
    let req = resolve_scheme("clash://other?url=x");
    assert_eq!(req.url, "clash://other?url=x");
}

#[test]
fn fetch_goes_through_the_proxy_with_defaults() {
    let req = resolve_scheme("clash://install-config/?url=https://example.com/p.yaml");
    assert_eq!(req.options.with_proxy, Some(true));
    assert_eq!(req.options.user_agent, None);
    assert_eq!(req.options.self_proxy, None);
    assert_eq!(req.options.accept_invalid_certs, None);
    assert_eq!(req.options.update_interval, None);
}

#[test]
fn fetch_and_append_success_is_success() {
    assert_eq!(import_outcome(true, true), ImportOutcome::Success);
}

#[test]
fn append_failure_after_fetch_success_is_failure() {
    assert_eq!(
        import_outcome(true, false),
        ImportOutcome::Failure(ImportError::AppendFailed)
    );
}

#[test]
fn fetch_failure_is_failure() {
    assert_eq!(
        import_outcome(false, false),
        ImportOutcome::Failure(ImportError::FetchFailed)
    );
    assert_eq!(
        import_outcome(false, true),
        ImportOutcome::Failure(ImportError::FetchFailed)
    );
}

#[test]
fn one_notification_per_outcome() {
    assert_eq!(notification_body(&ImportOutcome::Success), "Import profile success");
    assert_eq!(
        notification_body(&ImportOutcome::Failure(ImportError::FetchFailed)),
        "Import profile failed"
    );
    assert_eq!(
        notification_body(&ImportOutcome::Failure(ImportError::AppendFailed)),
        "Import profile failed"
    );
}

#[test]
fn only_failures_log_the_url() {
    assert!(!should_log_failure(&ImportOutcome::Success));
    assert!(should_log_failure(&ImportOutcome::Failure(ImportError::FetchFailed)));
    assert!(should_log_failure(&ImportOutcome::Failure(ImportError::AppendFailed)));
}
