//! The attempt classifier: one connector outcome becomes exactly one
//! `AttemptOutcome`, deciding whether the probe stops, retries, or fails.

use vstd::prelude::*;

verus! {

/// What one connect-and-verify exchange with the external connector
/// reported, at the connector's interface boundary.
#[derive(Debug)]
pub enum ConnectOutcome {
    /// A connection was established; `alive` says whether the liveness
    /// probe on that connection succeeded.
    Connected { alive: bool },
    /// The connection could not be established at the network level
    /// (refused, unreachable, name resolution), with the connector's
    /// human-readable description when it gave one.
    CouldNotConnect { description: Option<String> },
    /// The handshake did not complete within the configured connect timeout.
    ConnectTimeout,
    /// Any other connector-reported error (authentication rejected,
    /// protocol violation, malformed configuration), with its description.
    Other { error: String },
}

/// The classification of one attempt.
#[derive(Debug)]
pub enum AttemptOutcome {
    /// The server answered the liveness probe: the attempt demonstrated a
    /// healthy server.
    Success,
    /// A condition judged likely transient; another attempt is warranted
    /// after the configured delay.
    RetryableFailure { description: Option<String> },
    /// A condition retrying cannot resolve; the loop must stop at once,
    /// carrying the original error.
    FatalFailure { error: String },
}

/// Spec-level mirror of `AttemptOutcome`, over character sequences.
pub enum OutcomeView {
    Success,
    Retryable { description: Option<Seq<char>> },
    Fatal { error: Seq<char> },
}

pub open spec fn opt_str_view(s: Option<String>) -> Option<Seq<char>> {
    match s {
        Some(v) => Some(v@),
        None => None,
    }
}

pub open spec fn attempt_outcome_view(a: AttemptOutcome) -> OutcomeView {
    match a {
        AttemptOutcome::Success => OutcomeView::Success,
        AttemptOutcome::RetryableFailure { description } => OutcomeView::Retryable {
            description: opt_str_view(description),
        },
        AttemptOutcome::FatalFailure { error } => OutcomeView::Fatal { error: error@ },
    }
}

pub open spec fn timeout_description() -> Seq<char> {
    "Connection timeout"@
}

/// How one connector outcome classifies:
/// - a live, responsive connection is a success;
/// - a connection whose liveness probe failed is retryable (the attempt did
///   not demonstrate a healthy server), without a description;
/// - a network-level failure to connect is retryable, keeping the
///   connector's description;
/// - a connect timeout is retryable, described as a connection timeout;
/// - anything else is fatal, carrying the original error.
pub open spec fn classify_spec(oc: ConnectOutcome) -> OutcomeView {
    match oc {
        ConnectOutcome::Connected { alive } => if alive {
            OutcomeView::Success
        } else {
            OutcomeView::Retryable { description: None }
        },
        ConnectOutcome::CouldNotConnect { description } => OutcomeView::Retryable {
            description: opt_str_view(description),
        },
        ConnectOutcome::ConnectTimeout => OutcomeView::Retryable {
            description: Some(timeout_description()),
        },
        ConnectOutcome::Other { error } => OutcomeView::Fatal { error: error@ },
    }
}

/// Classify one connector outcome.
pub fn classify(oc: &ConnectOutcome) -> (r: AttemptOutcome)
    ensures
        attempt_outcome_view(r) == classify_spec(*oc),
{
    match oc {
        ConnectOutcome::Connected { alive } => {
            if *alive {
                AttemptOutcome::Success
            } else {
                AttemptOutcome::RetryableFailure { description: None }
            }
        },
        ConnectOutcome::CouldNotConnect { description } => {
            let d = match description {
                Some(v) => Some(v.clone()),
                None => None,
            };
            AttemptOutcome::RetryableFailure { description: d }
        },
        ConnectOutcome::ConnectTimeout => {
            AttemptOutcome::RetryableFailure {
                description: Some(String::from_str("Connection timeout")),
            }
        },
        ConnectOutcome::Other { error } => {
            AttemptOutcome::FatalFailure { error: error.clone() }
        },
    }
}

} // verus!
