//! The Monitor's detection predicate and its edge-triggered state machine.
//!
//! Each tick the Monitor evaluates one [`StatusDocument`] and steps a boolean
//! `exceeded` flag. A report is owed only on the inactive-to-active edge, so
//! a contiguous run of active ticks yields exactly one report.

use vstd::prelude::*;

use crate::config::ConfigError;
use crate::status::StatusDocument;
use crate::text::str_starts_with;

verus! {

/// The literal prefix whose presence at the start of the `message` string
/// makes the blocking condition active.
pub open spec fn blocked_prefix() -> Seq<char> {
    "You are being blocked"@
}

/// The detection predicate over one tick's `message` field: active exactly
/// when a `message` string is present and starts with [`blocked_prefix`].
pub open spec fn doc_active(message: Option<Seq<char>>) -> bool {
    match message {
        Some(m) => blocked_prefix().is_prefix_of(m),
        None => false,
    }
}

/// What one tick tells the surrounding loop to do.
#[derive(Clone, Copy, Debug, PartialEq, Eq, Structural)]
pub enum MonitorAction {
    /// The condition just became active: log at error level and, in the
    /// multi-node profile, send one report to the Collector.
    ReportOnset,
    /// The condition is active but was already reported: log at error level
    /// only.
    LogStillExceeded,
    /// The condition is inactive: log at debug level only.
    LogNotExceeded,
}

/// The action owed for one tick, given the prior flag and this tick's
/// detection result.
pub open spec fn spec_action(exceeded: bool, active: bool) -> MonitorAction {
    if active {
        if exceeded {
            MonitorAction::LogStillExceeded
        } else {
            MonitorAction::ReportOnset
        }
    } else {
        MonitorAction::LogNotExceeded
    }
}

/// Whether one tick emits a report: only on the inactive-to-active edge.
pub open spec fn emits_report(exceeded: bool, active: bool) -> bool {
    active && !exceeded
}

/// The outcome of one tick: the flag to carry to the next tick, and the
/// action owed for this one.
#[derive(Debug)]
pub struct MonitorStep {
    pub exceeded: bool,
    pub action: MonitorAction,
}

/// Steps the Monitor once: evaluates the detection predicate on `doc`,
/// carries the flag, and decides the tick's action. The flag always becomes
/// the predicate's value, so an inactive tick resets it unconditionally.
pub fn monitor_step(exceeded: bool, doc: &StatusDocument) -> (r: MonitorStep)
    ensures
        r.exceeded == doc_active(doc.message.deep_view()),
        r.action == spec_action(exceeded, doc_active(doc.message.deep_view())),
        (r.action == MonitorAction::ReportOnset) == emits_report(
            exceeded,
            doc_active(doc.message.deep_view()),
        ),
        doc.message is None ==> !r.exceeded && r.action == MonitorAction::LogNotExceeded,
{
    let active = match &doc.message {
        Some(message) => str_starts_with(message.as_str(), "You are being blocked"),
        None => false,
    };
    let action = if active {
        if exceeded {
            MonitorAction::LogStillExceeded
        } else {
            MonitorAction::ReportOnset
        }
    } else {
        MonitorAction::LogNotExceeded
    };
    MonitorStep { exceeded: active, action }
}

/// How many reports a run of ticks emits, starting from a given flag:
/// the ticks are stepped in order, each tick's detection result becoming
/// the next tick's flag.
pub open spec fn run_report_count(exceeded: bool, docs: Seq<StatusDocument>) -> nat
    decreases docs.len(),
{
    if docs.len() == 0 {
        0
    } else {
        let active = doc_active(docs[0].message.deep_view());
        (if emits_report(exceeded, active) {
            1nat
        } else {
            0nat
        }) + run_report_count(active, docs.drop_first())
    }
}

/// A run of active ticks entered with the flag already set emits no report.
pub proof fn lemma_active_run_already_exceeded(docs: Seq<StatusDocument>)
    requires
        forall|i: int| 0 <= i < docs.len() ==> doc_active(#[trigger] docs[i].message.deep_view()),
    ensures
        run_report_count(true, docs) == 0,
    decreases docs.len(),
{
    if docs.len() > 0 {
        assert(forall|i: int|
            0 <= i < docs.drop_first().len() ==> doc_active(
                #[trigger] docs.drop_first()[i].message.deep_view(),
            ));
        lemma_active_run_already_exceeded(docs.drop_first());
    }
}

/// Report emission is idempotent in count per contiguous active run: any
/// number of consecutive active ticks, entered with the flag clear, emits
/// exactly one report.
pub proof fn lemma_active_run_single_report(docs: Seq<StatusDocument>)
    requires
        docs.len() >= 1,
        forall|i: int| 0 <= i < docs.len() ==> doc_active(#[trigger] docs[i].message.deep_view()),
    ensures
        run_report_count(false, docs) == 1,
{
    assert(forall|i: int|
        0 <= i < docs.drop_first().len() ==> doc_active(
            #[trigger] docs.drop_first()[i].message.deep_view(),
        ));
    lemma_active_run_already_exceeded(docs.drop_first());
}

/// A run of inactive ticks emits no report and leaves the flag clear,
/// whatever flag it was entered with.
pub proof fn lemma_inactive_run_no_report(exceeded: bool, docs: Seq<StatusDocument>)
    requires
        forall|i: int| 0 <= i < docs.len() ==> !doc_active(#[trigger] docs[i].message.deep_view()),
    ensures
        run_report_count(exceeded, docs) == 0,
    decreases docs.len(),
{
    if docs.len() > 0 {
        assert(forall|i: int|
            0 <= i < docs.drop_first().len() ==> !doc_active(
                #[trigger] docs.drop_first()[i].message.deep_view(),
            ));
        lemma_inactive_run_no_report(false, docs.drop_first());
    }
}

/// The multi-node Monitor's validated configuration: where to send onset
/// reports, the shared secret to send them under, and the name this node
/// reports as. The single-node profile only logs and needs none of it.
#[derive(Debug)]
pub struct MonitorConfig {
    pub api_url: String,
    pub api_key: String,
    pub node_name: String,
}

/// Validates the multi-node Monitor's configuration: all three options are
/// required, and the error names the first one missing.
pub fn monitor_config(
    api_url: Option<String>,
    api_key: Option<String>,
    node_name: Option<String>,
) -> (r: Result<MonitorConfig, ConfigError>)
    ensures
        (r is Ok) <==> (api_url is Some && api_key is Some && node_name is Some),
        api_url is None ==> r == Err::<MonitorConfig, ConfigError>(ConfigError::MissingApiUrl),
        (api_url is Some && api_key is None) ==> r == Err::<MonitorConfig, ConfigError>(
            ConfigError::MissingApiKey,
        ),
        (api_url is Some && api_key is Some && node_name is None) ==> r == Err::<
            MonitorConfig,
            ConfigError,
        >(ConfigError::MissingNodeName),
        r matches Ok(c) ==> {
            &&& api_url matches Some(u) && c.api_url == u
            &&& api_key matches Some(k) && c.api_key == k
            &&& node_name matches Some(n) && c.node_name == n
        },
{
    let api_url = match api_url {
        Some(u) => u,
        None => {
            return Err(ConfigError::MissingApiUrl);
        },
    };
    let api_key = match api_key {
        Some(k) => k,
        None => {
            return Err(ConfigError::MissingApiKey);
        },
    };
    let node_name = match node_name {
        Some(n) => n,
        None => {
            return Err(ConfigError::MissingNodeName);
        },
    };
    Ok(MonitorConfig { api_url, api_key, node_name })
}

/// The report a Monitor sends to the Collector on an onset: the name of the
/// reporting node.
#[derive(Debug)]
pub struct RateLimitReport {
    pub node: String,
}

/// Builds the report owed for one onset, naming the reporting node.
pub fn onset_report(node: &str) -> (r: RateLimitReport)
    ensures
        r.node@ == node@,
{
    RateLimitReport { node: node.to_owned() }
}

} // verus!
