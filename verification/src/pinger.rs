//! The retry controller: the probe's policy and target, the per-iteration
//! continue/stop decision, the cancellation flag, and a verified model of
//! one whole `ping` run over a given sequence of connector outcomes.

use vstd::prelude::*;

use crate::interval::{parse_interval, parsed_interval};
use crate::outcome::{classify, classify_spec, opt_str_view, AttemptOutcome, ConnectOutcome,
    OutcomeView};
use crate::text::{dec_str, parse_u16, parse_u16_spec, parse_u64, parse_u64_spec, u64_to_string};

verus! {

/// A configuration that cannot be accepted; reported at construction,
/// never retried.
#[derive(Clone, Copy, Debug, PartialEq, Eq, Structural)]
pub enum ConfigError {
    /// The retry-interval string does not parse as a duration.
    InvalidInterval,
    /// The port string is not a 16-bit unsigned decimal numeral.
    InvalidPort,
    /// The retry-count string is not a 64-bit unsigned decimal numeral.
    InvalidMaxRetry,
}

/// The probe: an immutable target and retry policy, plus the cancellation
/// flag, the only externally settable state.
#[derive(Debug)]
pub struct MySQLPinger {
    pub host: String,
    pub port: u16,
    pub user: String,
    pub pass: Option<String>,
    pub dbname: String,
    /// Whole seconds of the interval between attempts.
    pub interval_secs: u64,
    /// Subsecond nanoseconds of the interval between attempts.
    pub interval_nanos: u32,
    /// Retry without limit; when set, `max_retry` does not bound the loop.
    pub forever: bool,
    /// The retry budget: attempts beyond the first permitted under a
    /// bounded policy, so the total number of attempts is `max_retry + 1`.
    pub max_retry: u64,
    /// The cooperative cancellation flag, set by `stop`.
    pub canceled: bool,
}

/// What the check at the top of each loop iteration decides.
#[derive(Clone, Copy, Debug, PartialEq, Eq, Structural)]
pub enum Decision {
    /// Make the next connection attempt.
    Proceed,
    /// The bounded retry budget is spent.
    Exhausted,
    /// Cancellation has been requested.
    Canceled,
}

/// The probe after `stop`: the same probe with the cancellation flag set.
pub open spec fn stop_spec(p: MySQLPinger) -> MySQLPinger {
    MySQLPinger { canceled: true, ..p }
}

/// The same probe with the cancellation flag as given.
pub open spec fn with_canceled(p: MySQLPinger, c: bool) -> MySQLPinger {
    MySQLPinger { canceled: c, ..p }
}

/// The decision at the top of each iteration: exhaustion is checked first, then
/// cancellation; under an unbounded policy the attempt count never ends the
/// loop.
pub open spec fn decision_spec(p: MySQLPinger, attempt: u64) -> Decision {
    if !p.forever && attempt > p.max_retry + 1 {
        Decision::Exhausted
    } else if p.canceled {
        Decision::Canceled
    } else {
        Decision::Proceed
    }
}

/// The attempt counter wraps around instead of overflowing when it reaches
/// the numeric limit.
pub open spec fn next_attempt_spec(attempt: u64) -> u64 {
    if attempt == u64::MAX {
        0
    } else {
        (attempt + 1) as u64
    }
}

/// Advance the attempt counter by one, wrapping at the numeric limit.
pub fn next_attempt(attempt: u64) -> (r: u64)
    ensures
        r == next_attempt_spec(attempt),
{
    if attempt == u64::MAX {
        0
    } else {
        attempt + 1
    }
}

/// One retry reported to the observability sink: the attempt that failed
/// and the classified description, when there is one.
#[derive(Debug)]
pub struct RetryEvent {
    pub attempt: u64,
    pub description: Option<String>,
}

/// A terminal failure of one `ping` run.
#[derive(Debug)]
pub enum PingError {
    /// The bounded retry budget was spent without a successful attempt.
    MaxRetryExceeded,
    /// Cancellation was requested and observed at a safe point.
    Canceled,
    /// A fatal connector error, carrying the original error's description.
    Fatal { error: String },
}

/// What one scripted loop iteration feeds the probe: the connector's
/// outcome for the attempt, and whether cancellation was requested during
/// the wait that follows a retryable failure.
#[derive(Debug)]
pub struct ScriptStep {
    pub outcome: ConnectOutcome,
    pub cancel_during_wait: bool,
}

/// What one `ping` run produced: the terminal result, how many times the
/// connector was called, and the retry events reported to the sink.
#[derive(Debug)]
pub struct PingReport {
    pub result: Result<(), PingError>,
    pub connector_calls: usize,
    pub events: Vec<RetryEvent>,
}

/// Spec-level mirror of `RetryEvent`.
pub struct RetryEventView {
    pub attempt: u64,
    pub description: Option<Seq<char>>,
}

/// Spec-level mirror of `PingError`.
pub enum PingErrorView {
    MaxRetryExceeded,
    Canceled,
    Fatal { error: Seq<char> },
}

/// Spec-level mirror of `PingReport`.
pub struct RunView {
    pub result: Result<(), PingErrorView>,
    pub calls: nat,
    pub events: Seq<RetryEventView>,
}

pub open spec fn event_view(e: RetryEvent) -> RetryEventView {
    RetryEventView { attempt: e.attempt, description: opt_str_view(e.description) }
}

pub open spec fn events_view(v: Vec<RetryEvent>) -> Seq<RetryEventView> {
    v@.map(|i: int, e: RetryEvent| event_view(e))
}

pub open spec fn ping_error_view(e: PingError) -> PingErrorView {
    match e {
        PingError::MaxRetryExceeded => PingErrorView::MaxRetryExceeded,
        PingError::Canceled => PingErrorView::Canceled,
        PingError::Fatal { error } => PingErrorView::Fatal { error: error@ },
    }
}

pub open spec fn result_view(r: Result<(), PingError>) -> Result<(), PingErrorView> {
    match r {
        Ok(u) => Ok(u),
        Err(e) => Err(ping_error_view(e)),
    }
}

pub open spec fn report_view(r: PingReport) -> RunView {
    RunView {
        result: result_view(r.result),
        calls: r.connector_calls as nat,
        events: events_view(r.events),
    }
}

/// The whole retry loop, as a function of the probe, the attempt counter,
/// and the scripted connector outcomes:
/// - exhaustion, then cancellation, is decided before any attempt;
/// - a successful attempt ends the run at once;
/// - a fatal outcome ends the run carrying the original error;
/// - a retryable outcome is reported to the sink and the loop goes on,
///   observing a cancellation that arrived during the wait;
/// - when the script runs out before the loop ends there is no verdict.
pub open spec fn spec_run(p: MySQLPinger, attempt: u64, script: Seq<ScriptStep>) -> Option<
    RunView,
>
    decreases script.len(),
{
    if decision_spec(p, attempt) == Decision::Exhausted {
        Some(RunView { result: Err(PingErrorView::MaxRetryExceeded), calls: 0, events: Seq::empty() })
    } else if decision_spec(p, attempt) == Decision::Canceled {
        Some(RunView { result: Err(PingErrorView::Canceled), calls: 0, events: Seq::empty() })
    } else if script.len() == 0 {
        None
    } else {
        let step = script[0];
        match classify_spec(step.outcome) {
            OutcomeView::Success => Some(
                RunView { result: Ok(()), calls: 1, events: Seq::empty() },
            ),
            OutcomeView::Fatal { error } => Some(
                RunView { result: Err(PingErrorView::Fatal { error }), calls: 1, events: Seq::empty() },
            ),
            OutcomeView::Retryable { description } => {
                let after_wait = with_canceled(p, p.canceled || step.cancel_during_wait);
                match spec_run(after_wait, next_attempt_spec(attempt), script.skip(1)) {
                    None => None,
                    Some(rest) => Some(
                        RunView {
                            result: rest.result,
                            calls: rest.calls + 1,
                            events: seq![
                                RetryEventView { attempt, description },
                            ] + rest.events,
                        },
                    ),
                }
            },
        }
    }
}

impl MySQLPinger {
    /// Construct a probe from already-validated values. The cancellation
    /// flag starts cleared.
    pub fn new(
        host: String,
        port: u16,
        user: String,
        pass: Option<String>,
        dbname: String,
        interval_secs: u64,
        interval_nanos: u32,
        forever: bool,
        max_retry: u64,
    ) -> (r: MySQLPinger)
        ensures
            r == (MySQLPinger {
                host,
                port,
                user,
                pass,
                dbname,
                interval_secs,
                interval_nanos,
                forever,
                max_retry,
                canceled: false,
            }),
    {
        MySQLPinger {
            host,
            port,
            user,
            pass,
            dbname,
            interval_secs,
            interval_nanos,
            forever,
            max_retry,
            canceled: false,
        }
    }

    /// Construct a probe from the textual arguments of the command surface:
    /// the interval is parsed first, then the port, then the retry count,
    /// and the first value that does not parse decides the error.
    pub fn from_arg(
        host: &str,
        port: &str,
        user: &str,
        pass: Option<&str>,
        dbname: &str,
        interval: &str,
        forever: bool,
        max_retry: &str,
    ) -> (r: Result<MySQLPinger, ConfigError>)
        ensures
            match r {
                Ok(p) => {
                    &&& parsed_interval(interval@) == Some((p.interval_secs, p.interval_nanos))
                    &&& parse_u16_spec(port@) == Some(p.port)
                    &&& parse_u64_spec(max_retry@) == Some(p.max_retry)
                    &&& p.host@ == host@
                    &&& p.user@ == user@
                    &&& p.dbname@ == dbname@
                    &&& opt_str_view(p.pass) == match pass {
                        Some(s) => Some(s@),
                        None => None::<Seq<char>>,
                    }
                    &&& p.forever == forever
                    &&& !p.canceled
                },
                Err(ConfigError::InvalidInterval) => parsed_interval(interval@) is None,
                Err(ConfigError::InvalidPort) => {
                    &&& parsed_interval(interval@) is Some
                    &&& parse_u16_spec(port@) is None
                },
                Err(ConfigError::InvalidMaxRetry) => {
                    &&& parsed_interval(interval@) is Some
                    &&& parse_u16_spec(port@) is Some
                    &&& parse_u64_spec(max_retry@) is None
                },
            },
    {
        let (interval_secs, interval_nanos) = match parse_interval(interval) {
            Some(iv) => iv,
            None => {
                return Err(ConfigError::InvalidInterval);
            },
        };
        let port_num = match parse_u16(port) {
            Some(v) => v,
            None => {
                return Err(ConfigError::InvalidPort);
            },
        };
        let max_retry_num = match parse_u64(max_retry) {
            Some(v) => v,
            None => {
                return Err(ConfigError::InvalidMaxRetry);
            },
        };
        let pass_owned = match pass {
            Some(s) => Some(String::from_str(s)),
            None => None,
        };
        Ok(
            MySQLPinger::new(
                String::from_str(host),
                port_num,
                String::from_str(user),
                pass_owned,
                String::from_str(dbname),
                interval_secs,
                interval_nanos,
                forever,
                max_retry_num,
            ),
        )
    }

    /// Request cooperative cancellation: set the flag and change nothing
    /// else. Stopping is idempotent; see [`lemma_stop_idempotent`].
    pub fn stop(&mut self)
        ensures
            *final(self) == stop_spec(*old(self)),
    {
        self.canceled = true;
    }

    /// The decision at the top of each loop iteration, for the given attempt
    /// number.
    pub fn decide(&self, attempt: u64) -> (d: Decision)
        ensures
            d == decision_spec(*self, attempt),
    {
        if !self.forever && attempt >= 1 && attempt - 1 > self.max_retry {
            Decision::Exhausted
        } else if self.canceled {
            Decision::Canceled
        } else {
            Decision::Proceed
        }
    }

    /// The attempt budget as reported to the sink: an infinity symbol under
    /// an unbounded policy, the total attempt count in decimal otherwise.
    pub open spec fn max_attempt_symbol_spec(&self) -> Seq<char> {
        if self.forever {
            "\u{267e} "@
        } else {
            dec_str((self.max_retry + 1) as nat)
        }
    }

    /// Render the attempt budget for reporting. A display concern only:
    /// the loop itself never reads this.
    pub fn max_attempt_symbol(&self) -> (r: String)
        requires
            self.forever || self.max_retry < u64::MAX,
        ensures
            r@ == self.max_attempt_symbol_spec(),
    {
        if self.forever {
            String::from_str("\u{267e} ")
        } else {
            u64_to_string(self.max_retry + 1)
        }
    }

    /// Run the whole retry loop against a script of connector outcomes,
    /// starting at attempt 1 from this probe's cancellation flag. Returns
    /// the run's report, or nothing where the script ended before the loop
    /// did; the report is exactly what [`spec_run`] says.
    pub fn ping(&self, script: &Vec<ScriptStep>) -> (r: Option<PingReport>)
        ensures
            match (r, spec_run(*self, 1, script@)) {
                (Some(rep), Some(run)) => report_view(rep) == run,
                (None, None) => true,
                _ => false,
            },
    {
        let ghost total = spec_run(*self, 1, script@);
        let mut i: usize = 0;
        let mut attempt: u64 = 1;
        let mut canceled: bool = self.canceled;
        let mut calls: usize = 0;
        let mut events: Vec<RetryEvent> = Vec::new();
        proof {
            assert(with_canceled(*self, canceled) == *self);
            assert(events_view(events) =~= Seq::<RetryEventView>::empty());
            assert(script@.skip(0) =~= script@);
            if let Some(run) = total {
                assert(events_view(events) + run.events =~= run.events);
            }
        }
        loop
            invariant
                i <= script@.len(),
                calls == i,
                total == spec_run(*self, 1, script@),
                match spec_run(with_canceled(*self, canceled), attempt, script@.skip(i as int)) {
                    None => total is None,
                    Some(rest) => total == Some(
                        RunView {
                            result: rest.result,
                            calls: (calls + rest.calls) as nat,
                            events: events_view(events) + rest.events,
                        },
                    ),
                },
            decreases script@.len() - i,
        {
            let ghost cur = with_canceled(*self, canceled);
            let ghost tail = script@.skip(i as int);
            let exhausted = !self.forever && attempt >= 1 && attempt - 1 > self.max_retry;
            if exhausted {
                proof {
                    assert(decision_spec(cur, attempt) == Decision::Exhausted);
                    assert(events_view(events) + Seq::<RetryEventView>::empty() =~= events_view(
                        events,
                    ));
                }
                return Some(
                    PingReport {
                        result: Err(PingError::MaxRetryExceeded),
                        connector_calls: calls,
                        events,
                    },
                );
            }
            if canceled {
                proof {
                    assert(decision_spec(cur, attempt) == Decision::Canceled);
                    assert(events_view(events) + Seq::<RetryEventView>::empty() =~= events_view(
                        events,
                    ));
                }
                return Some(
                    PingReport {
                        result: Err(PingError::Canceled),
                        connector_calls: calls,
                        events,
                    },
                );
            }
            proof {
                assert(decision_spec(cur, attempt) == Decision::Proceed);
            }
            if i == script.len() {
                proof {
                    assert(tail.len() == 0);
                    assert(spec_run(cur, attempt, tail) is None);
                }
                return None;
            }
            let step = &script[i];
            proof {
                assert(tail[0] == script@[i as int]);
            }
            let outcome = classify(&step.outcome);
            calls = calls + 1;
            match outcome {
                AttemptOutcome::Success => {
                    proof {
                        assert(spec_run(cur, attempt, tail) == Some(
                            RunView { result: Ok(()), calls: 1nat, events: Seq::<RetryEventView>::empty() },
                        ));
                        assert(events_view(events) + Seq::<RetryEventView>::empty() =~= events_view(
                            events,
                        ));
                    }
                    return Some(
                        PingReport { result: Ok(()), connector_calls: calls, events },
                    );
                },
                AttemptOutcome::FatalFailure { error } => {
                    proof {
                        assert(classify_spec(script@[i as int].outcome) == OutcomeView::Fatal {
                            error: error@,
                        });
                        assert(events_view(events) + Seq::<RetryEventView>::empty() =~= events_view(
                            events,
                        ));
                    }
                    return Some(
                        PingReport {
                            result: Err(PingError::Fatal { error }),
                            connector_calls: calls,
                            events,
                        },
                    );
                },
                AttemptOutcome::RetryableFailure { description } => {
                    proof {
                        assert(classify_spec(script@[i as int].outcome) == OutcomeView::Retryable {
                            description: opt_str_view(description),
                        });
                    }
                    let ghost events_before = events;
                    let ghost attempt_before = attempt;
                    events.push(RetryEvent { attempt, description });
                    if step.cancel_during_wait {
                        canceled = true;
                    }
                    attempt = if attempt == u64::MAX {
                        0
                    } else {
                        attempt + 1
                    };
                    i = i + 1;
                    proof {
                        let ev = RetryEventView {
                            attempt: attempt_before,
                            description: opt_str_view(events@[events@.len() - 1].description),
                        };
                        assert(events_view(events) =~= events_view(events_before).push(ev));
                        assert(with_canceled(*self, canceled) == with_canceled(
                            cur,
                            cur.canceled || script@[i as int - 1].cancel_during_wait,
                        ));
                        assert(tail.skip(1) =~= script@.skip(i as int));
                        assert(attempt == next_attempt_spec(attempt_before));
                        match spec_run(with_canceled(*self, canceled), attempt, script@.skip(i as int)) {
                            None => {
                                assert(spec_run(cur, attempt_before, tail) is None);
                            },
                            Some(rest) => {
                                assert(spec_run(cur, attempt_before, tail) == Some(
                                    RunView {
                                        result: rest.result,
                                        calls: rest.calls + 1,
                                        events: seq![ev] + rest.events,
                                    },
                                ));
                                assert(events_view(events) + rest.events =~= events_view(
                                    events_before,
                                ) + (seq![ev] + rest.events));
                            },
                        }
                    }
                },
            }
        }
    }
}

/// The status line a terminal ping failure prints.
pub open spec fn ping_error_message_spec(e: PingError) -> Seq<char> {
    match e {
        PingError::MaxRetryExceeded => "Max retry count exceeded"@,
        PingError::Canceled => "Canceled"@,
        PingError::Fatal { error } => error@,
    }
}

/// The status line a configuration error prints.
pub open spec fn config_error_message_spec(e: ConfigError) -> Seq<char> {
    match e {
        ConfigError::InvalidInterval => "invalid interval"@,
        ConfigError::InvalidPort => "invalid port"@,
        ConfigError::InvalidMaxRetry => "invalid max retry count"@,
    }
}

impl PingError {
    /// Render this failure for the final status line.
    pub fn message(&self) -> (r: String)
        ensures
            r@ == ping_error_message_spec(*self),
    {
        match self {
            PingError::MaxRetryExceeded => String::from_str("Max retry count exceeded"),
            PingError::Canceled => String::from_str("Canceled"),
            PingError::Fatal { error } => error.clone(),
        }
    }
}

impl ConfigError {
    /// Render this configuration error for reporting.
    pub fn message(&self) -> (r: String)
        ensures
            r@ == config_error_message_spec(*self),
    {
        match self {
            ConfigError::InvalidInterval => String::from_str("invalid interval"),
            ConfigError::InvalidPort => String::from_str("invalid port"),
            ConfigError::InvalidMaxRetry => String::from_str("invalid max retry count"),
        }
    }
}

/// Stopping twice leaves the probe exactly as stopping once does; the
/// observable effect of `stop` is idempotent.
pub proof fn lemma_stop_idempotent(p: MySQLPinger)
    ensures
        stop_spec(stop_spec(p)) == stop_spec(p),
{
}

/// Once `stop` has been observed, a run initiates no connection attempt at
/// all: it reports exactly one cancellation, whatever the script holds.
pub proof fn lemma_stop_prevents_attempts(p: MySQLPinger, script: Seq<ScriptStep>)
    ensures
        spec_run(stop_spec(p), 1, script) == Some(
            RunView {
                result: Err(PingErrorView::Canceled),
                calls: 0nat,
                events: Seq::<RetryEventView>::empty(),
            },
        ),
{
    assert(decision_spec(stop_spec(p), 1) == Decision::Canceled);
}

/// Under a bounded policy, a run that starts at attempt 1 makes at most
/// `max_retry + 1` connector calls, whatever the connector returns and
/// whenever cancellation arrives.
pub proof fn lemma_bounded_attempt_cap(p: MySQLPinger, script: Seq<ScriptStep>, run: RunView)
    requires
        !p.forever,
        p.max_retry <= u64::MAX - 2,
        spec_run(p, 1, script) == Some(run),
    ensures
        run.calls <= p.max_retry + 1,
{
    lemma_bounded_attempt_cap_at(p, 1, script, run);
}

proof fn lemma_bounded_attempt_cap_at(p: MySQLPinger, attempt: u64, script: Seq<ScriptStep>, run: RunView)
    requires
        !p.forever,
        p.max_retry <= u64::MAX - 2,
        1 <= attempt,
        spec_run(p, attempt, script) == Some(run),
    ensures
        attempt <= p.max_retry + 2 ==> run.calls + attempt <= p.max_retry + 2,
        attempt > p.max_retry + 1 ==> run.calls == 0,
    decreases script.len(),
{
    if decision_spec(p, attempt) == Decision::Exhausted || decision_spec(p, attempt) == Decision::Canceled {
    } else {
        let step = script[0];
        match classify_spec(step.outcome) {
            OutcomeView::Success => {},
            OutcomeView::Fatal { error } => {},
            OutcomeView::Retryable { description } => {
                let after_wait = with_canceled(p, p.canceled || step.cancel_during_wait);
                let rest = spec_run(after_wait, next_attempt_spec(attempt), script.skip(1));
                match rest {
                    None => {},
                    Some(rest_run) => {
                        lemma_bounded_attempt_cap_at(
                            after_wait,
                            next_attempt_spec(attempt),
                            script.skip(1),
                            rest_run,
                        );
                    },
                }
            },
        }
    }
}

/// Given a connector that always fails retryably and no cancellation, a
/// bounded run starting at attempt 1 reports exhaustion after exactly
/// `max_retry + 1` connector calls, each reported to the sink.
pub proof fn lemma_bounded_exhaustion(p: MySQLPinger, script: Seq<ScriptStep>)
    requires
        !p.forever,
        !p.canceled,
        p.max_retry <= u64::MAX - 2,
        script.len() >= p.max_retry + 1,
        forall|j: int| 0 <= j < script.len() ==> classify_spec(#[trigger] script[j].outcome)
            is Retryable && !script[j].cancel_during_wait,
    ensures
        match spec_run(p, 1, script) {
            Some(run) => {
                &&& run.result == Err::<(), PingErrorView>(PingErrorView::MaxRetryExceeded)
                &&& run.calls == p.max_retry + 1
                &&& run.events.len() == p.max_retry + 1
            },
            None => false,
        },
{
    lemma_bounded_exhaustion_at(p, 1, script);
}

proof fn lemma_bounded_exhaustion_at(p: MySQLPinger, attempt: u64, script: Seq<ScriptStep>)
    requires
        !p.forever,
        !p.canceled,
        p.max_retry <= u64::MAX - 2,
        1 <= attempt <= p.max_retry + 2,
        script.len() >= p.max_retry + 2 - attempt,
        forall|j: int| 0 <= j < script.len() ==> classify_spec(#[trigger] script[j].outcome)
            is Retryable && !script[j].cancel_during_wait,
    ensures
        match spec_run(p, attempt, script) {
            Some(run) => {
                &&& run.result == Err::<(), PingErrorView>(PingErrorView::MaxRetryExceeded)
                &&& run.calls == p.max_retry + 2 - attempt
                &&& run.events.len() == p.max_retry + 2 - attempt
            },
            None => false,
        },
    decreases script.len(),
{
    if attempt == p.max_retry + 2 {
        assert(decision_spec(p, attempt) == Decision::Exhausted);
    } else {
        assert(decision_spec(p, attempt) == Decision::Proceed);
        assert(classify_spec(script[0].outcome) is Retryable);
        let after_wait = with_canceled(p, p.canceled || script[0].cancel_during_wait);
        assert(after_wait == p);
        assert forall|j: int| 0 <= j < script.skip(1).len() implies classify_spec(
            #[trigger] script.skip(1)[j].outcome,
        ) is Retryable && !script.skip(1)[j].cancel_during_wait by {
            assert(script.skip(1)[j] == script[j + 1]);
        }
        lemma_bounded_exhaustion_at(p, (attempt + 1) as u64, script.skip(1));
    }
}

/// Under an unbounded policy a run never ends in exhaustion: it stops only
/// on success, cancellation, or a fatal error.
pub proof fn lemma_unbounded_never_exhausts(
    p: MySQLPinger,
    attempt: u64,
    script: Seq<ScriptStep>,
    run: RunView,
)
    requires
        p.forever,
        spec_run(p, attempt, script) == Some(run),
    ensures
        run.result != Err::<(), PingErrorView>(PingErrorView::MaxRetryExceeded),
    decreases script.len(),
{
    if decision_spec(p, attempt) == Decision::Exhausted || decision_spec(p, attempt) == Decision::Canceled {
    } else {
        let step = script[0];
        match classify_spec(step.outcome) {
            OutcomeView::Success => {},
            OutcomeView::Fatal { error } => {},
            OutcomeView::Retryable { description } => {
                let after_wait = with_canceled(p, p.canceled || step.cancel_during_wait);
                match spec_run(after_wait, next_attempt_spec(attempt), script.skip(1)) {
                    None => {},
                    Some(rest_run) => {
                        lemma_unbounded_never_exhausts(
                            after_wait,
                            next_attempt_spec(attempt),
                            script.skip(1),
                            rest_run,
                        );
                    },
                }
            },
        }
    }
}

/// The attempt numbers reported to the sink increase strictly by 1 per
/// retryable iteration, starting at the run's first attempt.
pub proof fn lemma_events_monotonic(
    p: MySQLPinger,
    attempt: u64,
    script: Seq<ScriptStep>,
    run: RunView,
)
    requires
        spec_run(p, attempt, script) == Some(run),
        attempt + script.len() <= u64::MAX,
    ensures
        run.events.len() <= script.len(),
        forall|j: int| 0 <= j < run.events.len() ==> run.events[j].attempt == attempt + j,
    decreases script.len(),
{
    if decision_spec(p, attempt) == Decision::Exhausted || decision_spec(p, attempt) == Decision::Canceled {
    } else {
        let step = script[0];
        match classify_spec(step.outcome) {
            OutcomeView::Success => {},
            OutcomeView::Fatal { error } => {},
            OutcomeView::Retryable { description } => {
                let after_wait = with_canceled(p, p.canceled || step.cancel_during_wait);
                match spec_run(after_wait, next_attempt_spec(attempt), script.skip(1)) {
                    None => {},
                    Some(rest_run) => {
                        lemma_events_monotonic(
                            after_wait,
                            next_attempt_spec(attempt),
                            script.skip(1),
                            rest_run,
                        );
                        assert(run.events[0].attempt == attempt);
                        assert forall|j: int| 1 <= j < run.events.len() implies run.events[j].attempt
                            == attempt + j by {
                            assert(run.events[j] == rest_run.events[j - 1]);
                        }
                    },
                }
            },
        }
    }
}

/// A fatal connector error on the very first attempt ends the run at once,
/// after exactly one connector call and with the original error, whatever
/// the retry budget.
pub proof fn lemma_fatal_short_circuits(p: MySQLPinger, script: Seq<ScriptStep>, error: Seq<char>)
    requires
        !p.canceled,
        script.len() > 0,
        classify_spec(script[0].outcome) == (OutcomeView::Fatal { error }),
    ensures
        spec_run(p, 1, script) == Some(
            RunView {
                result: Err(PingErrorView::Fatal { error }),
                calls: 1nat,
                events: Seq::<RetryEventView>::empty(),
            },
        ),
{
    assert(decision_spec(p, 1) == Decision::Proceed);
}

} // verus!
