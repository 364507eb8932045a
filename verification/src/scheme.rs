//! Parsing of a custom-scheme configuration-install request and the
//! reporting of its outcome.
//!
//! An inbound request is one URL string. Each of the two recognized install
//! prefixes is stripped off the front, repeatedly while it matches; whatever
//! remains is used verbatim as the remote fetch target — an unrecognized
//! input is attempted as a plain remote URL rather than rejected. The fetch
//! and the profile append are outside work; their outcomes come back as
//! booleans and decide the one notification the user sees.

use vstd::prelude::*;

verus! {

/// A string with every leading copy of `prefix` removed: the front of the
/// string is stripped as long as it matches.
pub open spec fn strip_all(s: Seq<char>, prefix: Seq<char>) -> Seq<char>
    decreases s.len(),
{
    if prefix.len() > 0 && s.len() >= prefix.len() && s.subrange(0, prefix.len() as int)
        == prefix {
        strip_all(s.subrange(prefix.len() as int, s.len() as int), prefix)
    } else {
        s
    }
}

/// The install prefix with a path slash.
pub open spec fn install_prefix_slash() -> Seq<char> {
    "clash://install-config/?url="@
}

/// The install prefix without a path slash.
pub open spec fn install_prefix_plain() -> Seq<char> {
    "clash://install-config?url="@
}

/// The fetch target a request yields: the request with both recognized
/// install prefixes stripped off the front, the slashed form first.
pub open spec fn stripped_url(param: Seq<char>) -> Seq<char> {
    strip_all(strip_all(param, install_prefix_slash()), install_prefix_plain())
}

/// Whether `prefix` is the front of `s`.
fn str_has_prefix(s: &str, prefix: &str) -> (has: bool)
    ensures
        has == (prefix@.len() <= s@.len() && s@.subrange(0, prefix@.len() as int) == prefix@),
{
    let s_len = s.unicode_len();
    let p_len = prefix.unicode_len();
    if p_len > s_len {
        return false;
    }
    let mut i: usize = 0;
    while i < p_len
        invariant
            i <= p_len,
            p_len <= s_len,
            p_len == prefix@.len(),
            s_len == s@.len(),
            forall|j: int| 0 <= j < i ==> s@[j] == prefix@[j],
        decreases p_len - i,
    {
        if s.get_char(i) != prefix.get_char(i) {
            proof {
                assert(s@.subrange(0, p_len as int)[i as int] == s@[i as int]);
            }
            return false;
        }
        i = i + 1;
    }
    proof {
        assert(s@.subrange(0, p_len as int) =~= prefix@);
    }
    true
}

/// Strip every leading copy of `prefix` off `s`.
fn strip_prefix_repeated<'a>(s: &'a str, prefix: &str) -> (rest: &'a str)
    requires
        prefix@.len() > 0,
    ensures
        rest@ == strip_all(s@, prefix@),
{
    let p_len = prefix.unicode_len();
    let mut cur: &'a str = s;
    loop
        invariant
            p_len == prefix@.len(),
            p_len > 0,
            strip_all(cur@, prefix@) == strip_all(s@, prefix@),
        decreases cur@.len(),
    {
        if str_has_prefix(cur, prefix) {
            let c_len = cur.unicode_len();
            cur = cur.substring_char(p_len, c_len);
        } else {
            return cur;
        }
    }
}

/// The options a scheme-triggered fetch uses: proxy-assisted, everything
/// else defaulted.
#[derive(Debug, PartialEq, Eq)]
pub struct FetchOptions {
    pub user_agent: Option<String>,
    pub with_proxy: Option<bool>,
    pub self_proxy: Option<bool>,
    pub accept_invalid_certs: Option<bool>,
    pub update_interval: Option<u64>,
}

/// One parsed install request: the remote URL to fetch and the fixed fetch
/// options.
#[derive(Debug, PartialEq, Eq)]
pub struct SchemeRequest {
    pub url: String,
    pub options: FetchOptions,
}

/// Parse an inbound scheme parameter into the fetch request: strip the two
/// recognized install prefixes off the front and fetch the rest through the
/// proxy, all other fetch options defaulted.
pub fn resolve_scheme(param: &str) -> (request: SchemeRequest)
    ensures
        request.url@ == stripped_url(param@),
        request.options.user_agent is None,
        request.options.with_proxy == Some(true),
        request.options.self_proxy is None,
        request.options.accept_invalid_certs is None,
        request.options.update_interval is None,
{
    proof {
        reveal_strlit("clash://install-config/?url=");
        reveal_strlit("clash://install-config?url=");
    }
    let step_one = strip_prefix_repeated(param, "clash://install-config/?url=");
    let step_two = strip_prefix_repeated(step_one, "clash://install-config?url=");
    SchemeRequest {
        url: step_two.to_owned(),
        options: FetchOptions {
            user_agent: None,
            with_proxy: Some(true),
            self_proxy: None,
            accept_invalid_certs: None,
            update_interval: None,
        },
    }
}

/// Why an import failed.
#[derive(Clone, Copy, Debug, PartialEq, Eq, Structural)]
pub enum ImportError {
    /// The remote profile could not be fetched or parsed.
    FetchFailed,
    /// The fetched profile could not be appended to the profile collection.
    AppendFailed,
}

/// The outcome of one import attempt, surfaced only as a notification.
#[derive(Clone, Copy, Debug, PartialEq, Eq, Structural)]
pub enum ImportOutcome {
    Success,
    Failure(ImportError),
}

/// The outcome the two outside steps yield: success exactly when the fetch
/// succeeded and the append succeeded.
pub open spec fn outcome_spec(fetch_ok: bool, append_ok: bool) -> ImportOutcome {
    if !fetch_ok {
        ImportOutcome::Failure(ImportError::FetchFailed)
    } else if !append_ok {
        ImportOutcome::Failure(ImportError::AppendFailed)
    } else {
        ImportOutcome::Success
    }
}

/// Decide the outcome of an import from the fetch and append results. A
/// successful fetch whose append fails is still a failure.
pub fn import_outcome(fetch_ok: bool, append_ok: bool) -> (outcome: ImportOutcome)
    ensures
        outcome == outcome_spec(fetch_ok, append_ok),
        outcome is Success <==> fetch_ok && append_ok,
{
    if !fetch_ok {
        ImportOutcome::Failure(ImportError::FetchFailed)
    } else if !append_ok {
        ImportOutcome::Failure(ImportError::AppendFailed)
    } else {
        ImportOutcome::Success
    }
}

/// The body of the one notification an import emits.
pub fn notification_body(outcome: &ImportOutcome) -> (body: &'static str)
    ensures
        *outcome is Success ==> body@ == "Import profile success"@,
        !(*outcome is Success) ==> body@ == "Import profile failed"@,
{
    match outcome {
        ImportOutcome::Success => "Import profile success",
        ImportOutcome::Failure(_) => "Import profile failed",
    }
}

/// Whether the offending URL must additionally be logged: on every failure.
pub fn should_log_failure(outcome: &ImportOutcome) -> (log: bool)
    ensures
        log == !(*outcome is Success),
{
    match outcome {
        ImportOutcome::Success => false,
        ImportOutcome::Failure(_) => true,
    }
}

} // verus!
