use vstd::prelude::*;

use crate::backoff::{next_delay, Backoff};
use crate::parser::{
    clone_opt, extras_view, line_step, opt_view, outcome_view, CsvConfig, Extra, FrameFormat,
    ParseError, Sample, SampleModel, TcpLineParser,
};
use crate::time::{current_instant, is_plain, millis_delta, millis_from, rfc3339_millis, rfc3339_millis_text, Instant};

verus! {

/// Connection state, observed by every caller.
#[allow(non_camel_case_types)]
#[derive(Debug, Clone, Copy, PartialEq, Eq, Structural)]
pub enum DriverState {
    DISCONNECTED,
    CONNECTING,
    CONNECTED,
    STOPPED,
}

/// Counters (saturating) and last-seen values.
#[derive(Debug, Clone)]
pub struct DriverMetrics {
    pub lines_received: u64,
    pub lines_parsed: u64,
    pub parse_errors: u64,
    pub telemetry_emitted: u64,
    pub reconnects: u64,
    pub last_error: Option<String>,
    pub last_line_at: Option<String>,
}

/// A snapshot of state and metrics.
#[derive(Debug, Clone)]
pub struct DriverStatus {
    pub state: DriverState,
    pub metrics: DriverMetrics,
}

#[derive(Debug, Clone, Copy)]
pub struct ReconnectConfig {
    pub enabled: bool,
    pub min_backoff_ms: u64,
    pub max_backoff_ms: u64,
}

/// Driver settings, already validated.
#[derive(Debug, Clone)]
pub struct TcpLineDriverConfig {
    pub host: String,
    pub port: u16,
    pub format: FrameFormat,
    pub csv: CsvConfig,
    pub emit_interval_ms: u64,
    pub dedupe_within_ms: u64,
    pub reconnect: ReconnectConfig,
}

/// What the task that owns the transport does next.
#[derive(Debug, Clone, Copy, PartialEq, Eq, Structural)]
pub enum Action {
    /// Open a transport connection.
    Connect,
    /// Read the next line.
    ReadLine,
    /// Wait this many milliseconds, then begin a new cycle.
    Sleep(u64),
    /// Stop: the driver is done.
    Finish,
}

/// A sample as handed to a caller, with milliseconds since the connection's
/// first sample.
#[derive(Debug, Clone)]
pub struct TelemetryPoint {
    pub ts: String,
    pub machine_id: String,
    pub elapsed_ms: u64,
    pub bt_c: Option<String>,
    pub et_c: Option<String>,
    pub gas_pct: Option<String>,
    pub fan_pct: Option<String>,
    pub drum_rpm: Option<String>,
    pub extras: Vec<Extra>,
}

pub open spec fn saturating_inc(x: u64) -> u64 {
    if x == u64::MAX {
        x
    } else {
        (x + 1) as u64
    }
}

fn inc(x: u64) -> (r: u64)
    ensures
        r == saturating_inc(x),
{
    if x == u64::MAX {
        x
    } else {
        x + 1
    }
}

/// A new sample at `ts` repeats the latest one at `prev` within the window.
pub open spec fn is_duplicate(prev: Option<Instant>, ts: Instant, window: u64) -> bool {
    match prev {
        Some(p) => window > 0 && match millis_delta(ts@, p@) {
            Some(d) => d < window,
            None => false,
        },
        None => false,
    }
}

/// Whole milliseconds from the origin to `ts`, never negative.
pub open spec fn elapsed_millis(ts: Instant, origin: Instant) -> int {
    match millis_delta(ts@, origin@) {
        Some(d) => if d < 0 {
            0
        } else {
            d
        },
        None => 0,
    }
}

/// The longest a reader waits for a sample: twice the emit interval, at least 500 ms.
pub open spec fn read_timeout(emit_interval_ms: u64) -> int {
    let twice = 2 * emit_interval_ms;
    let capped = if twice > u64::MAX {
        u64::MAX as int
    } else {
        twice
    };
    if capped < 500 {
        500
    } else {
        capped
    }
}

/// The text recorded for a failure, or `fallback` when none was.
pub open spec fn error_text(last_error: Option<String>, fallback: Seq<char>) -> Seq<char> {
    match last_error {
        Some(e) => e@,
        None => fallback,
    }
}

/// `d` with the state of its connection dropped: header state forgotten
/// (the parser's columns become `columns`), no latest sample, no origin.
pub open spec fn cleared(d: DriverInner, columns: Vec<String>) -> DriverInner {
    DriverInner {
        parser: TcpLineParser { csv_header_parsed: false, csv_columns: columns, ..d.parser },
        latest_sample: None,
        start_ts: None,
        ..d
    }
}

/// `d` after a failure with `msg`.
pub open spec fn failed(d: DriverInner, msg: String, columns: Vec<String>) -> DriverInner {
    DriverInner {
        metrics: DriverMetrics { last_error: Some(msg), ..d.metrics },
        state: if d.stop_flag {
            DriverState::STOPPED
        } else {
            DriverState::DISCONNECTED
        },
        ..cleared(d, columns)
    }
}

/// The cycle ends for good: a stop was asked or reconnection is off.
pub open spec fn cycle_over(d: DriverInner) -> bool {
    d.stop_flag || !d.reconnect.enabled
}

/// `d` at the end of a cycle: finished, or one more reconnect with the
/// backoff advanced.
pub open spec fn ended(d: DriverInner) -> DriverInner {
    if cycle_over(d) {
        DriverInner {
            finished: true,
            state: if d.stop_flag {
                DriverState::STOPPED
            } else {
                DriverState::DISCONNECTED
            },
            ..d
        }
    } else {
        DriverInner {
            metrics: DriverMetrics { reconnects: saturating_inc(d.metrics.reconnects), ..d.metrics },
            backoff: Backoff {
                current: next_delay(d.backoff.current, d.backoff.min, d.backoff.max),
                ..d.backoff
            },
            ..d
        }
    }
}

/// What follows the end of a cycle: finish, or sleep the current delay.
pub open spec fn end_action(d: DriverInner) -> Action {
    if cycle_over(d) {
        Action::Finish
    } else {
        Action::Sleep(d.backoff.current)
    }
}

/// `d` once the transport has connected.
pub open spec fn connected(d: DriverInner) -> DriverInner {
    DriverInner {
        backoff: Backoff { current: d.backoff.min, ..d.backoff },
        metrics: DriverMetrics { last_error: None, ..d.metrics },
        state: DriverState::CONNECTED,
        ..d
    }
}

/// No counter of `after` is below its value in `before`.
pub open spec fn counters_kept(before: DriverInner, after: DriverInner) -> bool {
    &&& after.metrics.lines_received >= before.metrics.lines_received
    &&& after.metrics.lines_parsed >= before.metrics.lines_parsed
    &&& after.metrics.parse_errors >= before.metrics.parse_errors
    &&& after.metrics.telemetry_emitted >= before.metrics.telemetry_emitted
    &&& after.metrics.reconnects >= before.metrics.reconnects
}

/// Counters never go down: connecting, failing, clearing a connection and
/// ending a cycle keep or raise each of them.
pub proof fn lemma_counters_never_decrease(d: DriverInner, msg: String, columns: Vec<String>)
    ensures
        counters_kept(d, connected(d)),
        counters_kept(d, cleared(d, columns)),
        counters_kept(d, failed(d, msg, columns)),
        counters_kept(d, ended(d)),
        counters_kept(d, ended(failed(d, msg, columns))),
        counters_kept(d, ended(connected(d))),
{
}

/// State shared by the transport task and callers, without its locks: the
/// parser, the latest sample, the metrics and the connection state machine.
pub struct DriverInner {
    pub host: String,
    pub port: u16,
    pub emit_interval_ms: u64,
    pub dedupe_within_ms: u64,
    pub reconnect: ReconnectConfig,
    pub machine_id: String,
    pub parser: TcpLineParser,
    pub state: DriverState,
    pub metrics: DriverMetrics,
    pub latest_sample: Option<Sample>,
    pub start_ts: Option<Instant>,
    pub stop_flag: bool,
    pub backoff: Backoff,
    pub started: bool,
    pub finished: bool,
}

impl DriverInner {
    pub open spec fn wf(&self) -> bool {
        &&& self.backoff.wf()
        &&& self.reconnect.min_backoff_ms <= self.reconnect.max_backoff_ms
    }

    pub fn new(config: TcpLineDriverConfig, machine_id: String) -> (r: Self)
        requires
            config.reconnect.min_backoff_ms <= config.reconnect.max_backoff_ms,
        ensures
            r.wf(),
            r.state == DriverState::DISCONNECTED,
            r.machine_id@ == machine_id@,
            r.parser.format == config.format,
            r.parser.csv == config.csv,
            !r.parser.csv_header_parsed,
            r.dedupe_within_ms == config.dedupe_within_ms,
            r.emit_interval_ms == config.emit_interval_ms,
            r.reconnect == config.reconnect,
            r.latest_sample is None,
            r.start_ts is None,
            !r.stop_flag,
            !r.started,
            !r.finished,
            r.metrics.lines_received == 0,
            r.metrics.lines_parsed == 0,
            r.metrics.parse_errors == 0,
            r.metrics.telemetry_emitted == 0,
            r.metrics.reconnects == 0,
            r.metrics.last_error is None,
            r.metrics.last_line_at is None,
    {
        let parser = TcpLineParser::new(config.format, config.csv);
        DriverInner {
            host: config.host,
            port: config.port,
            emit_interval_ms: config.emit_interval_ms,
            dedupe_within_ms: config.dedupe_within_ms,
            reconnect: config.reconnect,
            machine_id,
            parser,
            state: DriverState::DISCONNECTED,
            metrics: DriverMetrics {
                lines_received: 0,
                lines_parsed: 0,
                parse_errors: 0,
                telemetry_emitted: 0,
                reconnects: 0,
                last_error: None,
                last_line_at: None,
            },
            latest_sample: None,
            start_ts: None,
            stop_flag: false,
            backoff: Backoff::new(0, 0),
            started: false,
            finished: false,
        }
    }

    /// Starts the cycle unless it is running: returns whether the caller must
    /// spawn the task that drives it. A start while the cycle runs, or after
    /// a stop, does nothing; one after the cycle ended by itself starts afresh.
    pub fn ensure_loop(&mut self) -> (spawn: bool)
        requires
            old(self).wf(),
        ensures
            final(self).wf(),
            spawn == ((!old(self).started || old(self).finished) && !old(self).stop_flag),
            spawn ==> *final(self) == (DriverInner {
                started: true,
                finished: false,
                stop_flag: false,
                backoff: Backoff {
                    current: old(self).reconnect.min_backoff_ms,
                    min: old(self).reconnect.min_backoff_ms,
                    max: old(self).reconnect.max_backoff_ms,
                },
                ..*old(self)
            }),
            !spawn ==> *final(self) == *old(self),
    {
        if (self.started && !self.finished) || self.stop_flag {
            return false;
        }
        self.started = true;
        self.finished = false;
        self.stop_flag = false;
        self.backoff.configure(self.reconnect.min_backoff_ms, self.reconnect.max_backoff_ms);
        true
    }

    pub fn set_state(&mut self, state: DriverState)
        ensures
            *final(self) == (DriverInner { state, ..*old(self) }),
    {
        self.state = state;
    }

    /// Clears what belongs to one connection: header state, latest sample and
    /// the elapsed-time origin.
    pub fn reset_connection_state(&mut self)
        requires
            old(self).wf(),
        ensures
            final(self).wf(),
            *final(self) == cleared(*old(self), final(self).parser.csv_columns),
            final(self).parser.csv_columns@ == old(self).parser.csv.columns@,
    {
        self.parser.reset();
        self.latest_sample = None;
        self.start_ts = None;
    }

    /// Ends the cycle: the final state is `STOPPED` after a stop request,
    /// else `DISCONNECTED`.
    fn finish(&mut self) -> (r: Action)
        ensures
            r == Action::Finish,
            *final(self) == (DriverInner {
                finished: true,
                state: if old(self).stop_flag {
                    DriverState::STOPPED
                } else {
                    DriverState::DISCONNECTED
                },
                ..*old(self)
            }),
    {
        self.finished = true;
        let s = if self.stop_flag {
            DriverState::STOPPED
        } else {
            DriverState::DISCONNECTED
        };
        self.set_state(s);
        Action::Finish
    }

    /// Top of a cycle: stop if asked to, else go `CONNECTING` with fresh
    /// per-connection state.
    pub fn begin_cycle(&mut self) -> (r: Action)
        requires
            old(self).wf(),
        ensures
            final(self).wf(),
            old(self).stop_flag ==> r == Action::Finish && *final(self) == (DriverInner {
                finished: true,
                state: DriverState::STOPPED,
                ..*old(self)
            }),
            !old(self).stop_flag ==> r == Action::Connect && *final(self) == (DriverInner {
                state: DriverState::CONNECTING,
                ..cleared(*old(self), final(self).parser.csv_columns)
            }) && final(self).parser.csv_columns@ == old(self).parser.csv.columns@,
    {
        if self.stop_flag {
            return self.finish();
        }
        self.set_state(DriverState::CONNECTING);
        self.reset_connection_state();
        Action::Connect
    }

    /// After a failed or lost connection: stop for good if a stop was asked
    /// or reconnection is off; else count a reconnect and wait the next delay.
    pub fn end_cycle(&mut self) -> (r: Action)
        requires
            old(self).wf(),
        ensures
            final(self).wf(),
            r == end_action(*old(self)),
            *final(self) == ended(*old(self)),
    {
        if self.stop_flag || !self.reconnect.enabled {
            return self.finish();
        }
        self.metrics.reconnects = inc(self.metrics.reconnects);
        let delay = self.backoff.next();
        Action::Sleep(delay)
    }

    /// The transport connected: backoff and last error are cleared and the
    /// state is `CONNECTED`; then read, unless a stop was asked.
    pub fn handle_connected(&mut self) -> (r: Action)
        requires
            old(self).wf(),
        ensures
            final(self).wf(),
            !old(self).stop_flag ==> r == Action::ReadLine && *final(self) == connected(*old(self)),
            old(self).stop_flag ==> r == end_action(connected(*old(self))) && *final(self) == ended(
                connected(*old(self)),
            ),
    {
        self.backoff.reset();
        self.metrics.last_error = None;
        self.set_state(DriverState::CONNECTED);
        if self.stop_flag {
            return self.end_cycle();
        }
        Action::ReadLine
    }

    /// Records a failure and clears the connection's state. The state becomes
    /// `STOPPED` after a stop request, else `DISCONNECTED`.
    pub fn handle_failure(&mut self, msg: String)
        requires
            old(self).wf(),
        ensures
            final(self).wf(),
            *final(self) == failed(*old(self), msg, final(self).parser.csv_columns),
            final(self).parser.csv_columns@ == old(self).parser.csv.columns@,
    {
        self.metrics.last_error = Some(msg);
        self.reset_connection_state();
        let s = if self.stop_flag {
            DriverState::STOPPED
        } else {
            DriverState::DISCONNECTED
        };
        self.set_state(s);
    }

    /// The connection failed or dropped with `msg`: record it, then end the cycle.
    pub fn connection_lost(&mut self, msg: String) -> (r: Action)
        requires
            old(self).wf(),
        ensures
            final(self).wf(),
            *final(self) == ended(failed(*old(self), msg, final(self).parser.csv_columns)),
            r == end_action(failed(*old(self), msg, final(self).parser.csv_columns)),
            final(self).parser.csv_columns@ == old(self).parser.csv.columns@,
    {
        self.handle_failure(msg);
        self.end_cycle()
    }

    /// The remote end closed the connection.
    pub fn connection_closed(&mut self) -> (r: Action)
        requires
            old(self).wf(),
        ensures
            final(self).wf(),
            exists|msg: String|
                msg@ == "socket closed"@ && *final(self) == #[trigger] ended(
                    failed(*old(self), msg, final(self).parser.csv_columns),
                ) && r == end_action(failed(*old(self), msg, final(self).parser.csv_columns)),
            final(self).parser.csv_columns@ == old(self).parser.csv.columns@,
    {
        let msg = String::from_str("socket closed");
        let ghost m = msg;
        let r = self.connection_lost(msg);
        assert(m@ == "socket closed"@ && *self == ended(failed(*old(self), m, self.parser.csv_columns)));
        r
    }
}

pub open spec fn latest_ts(latest: Option<Sample>) -> Option<Instant> {
    match latest {
        Some(s) => Some(s.ts),
        None => None,
    }
}

fn clone_extras(v: &Vec<Extra>) -> (r: Vec<Extra>)
    ensures
        extras_view(r@) == extras_view(v@),
{
    let mut r: Vec<Extra> = Vec::new();
    let mut i: usize = 0;
    while i < v.len()
        invariant
            i <= v@.len(),
            r@.len() == i,
            forall|j: int| 0 <= j < i ==> (#[trigger] r@[j])@ == v@[j]@,
        decreases v@.len() - i,
    {
        let e = &v[i];
        r.push(
            Extra {
                key: e.key.clone(),
                number_value: clone_opt(&e.number_value),
                text_value: clone_opt(&e.text_value),
            },
        );
        i = i + 1;
    }
    assert(extras_view(r@) =~= extras_view(v@));
    r
}

fn message_of(text: &str) -> (r: String)
    ensures
        r@ == text@,
{
    String::from_str(text)
}


/// The text a parse error is recorded with.
pub open spec fn parse_error_text(e: ParseError) -> Seq<char> {
    match e {
        ParseError::InvalidJson => "invalid json"@,
        ParseError::InvalidTimestamp => "invalid timestamp"@,
    }
}

/// What ingesting one line did: the parser moved as `line_step` says with
/// outcome `out`, and `r` and the driver reflect that outcome.
pub open spec fn processed(
    before: DriverInner,
    after: DriverInner,
    line: Seq<char>,
    now: (int, int),
    out: Result<Option<SampleModel>, ParseError>,
    r: Result<bool, ParseError>,
) -> bool {
    &&& line_step(before.parser, after.parser, line, now, out)
    &&& after.state == before.state
    &&& after.stop_flag == before.stop_flag
    &&& after.backoff == before.backoff
    &&& after.reconnect == before.reconnect
    &&& after.finished == before.finished
    &&& after.metrics.lines_received == before.metrics.lines_received
    &&& after.metrics.parse_errors == before.metrics.parse_errors
    &&& after.metrics.last_error == before.metrics.last_error
    &&& after.metrics.telemetry_emitted == before.metrics.telemetry_emitted
    &&& after.metrics.reconnects == before.metrics.reconnects
    &&& after.machine_id == before.machine_id
    &&& after.dedupe_within_ms == before.dedupe_within_ms
    &&& after.emit_interval_ms == before.emit_interval_ms
    &&& after.started == before.started
    &&& after.start_ts == origin_after(before, out)
    &&& match out {
        Err(e) => r == Err::<bool, ParseError>(e) && after.latest_sample == before.latest_sample
            && after.metrics == before.metrics,
        Ok(None) => r == Ok::<bool, ParseError>(false) && after.latest_sample
            == before.latest_sample && after.metrics == before.metrics,
        Ok(Some(m)) => {
            let accepted = !is_duplicate(
                latest_ts(before.latest_sample),
                Instant { secs: m.ts.0 as i64, nanos: m.ts.1 as u32 },
                before.dedupe_within_ms,
            );
            &&& r == Ok::<bool, ParseError>(accepted)
            &&& accepted ==> (after.latest_sample matches Some(s) && s@ == m
                && after.metrics.lines_parsed == saturating_inc(before.metrics.lines_parsed))
            &&& !accepted ==> after.latest_sample == before.latest_sample && after.metrics
                == before.metrics
        },
    }
}

/// The effect of one received line on the counters, the latest sample and
/// the recorded error.
pub open spec fn line_effect(
    before: DriverInner,
    after: DriverInner,
    line: Seq<char>,
    now: (int, int),
    out: Result<Option<SampleModel>, ParseError>,
) -> bool {
    &&& line_step(before.parser, after.parser, line, now, out)
    &&& after.metrics.lines_received == saturating_inc(before.metrics.lines_received)
    &&& after.metrics.telemetry_emitted == before.metrics.telemetry_emitted
    &&& after.metrics.reconnects == before.metrics.reconnects
    &&& after.start_ts == origin_after(before, out)
    &&& match out {
        Err(e) => {
            &&& after.metrics.parse_errors == saturating_inc(before.metrics.parse_errors)
            &&& opt_view(after.metrics.last_error) == Some(parse_error_text(e))
            &&& after.latest_sample == before.latest_sample
            &&& after.metrics.lines_parsed == before.metrics.lines_parsed
            &&& after.metrics.last_line_at == before.metrics.last_line_at
        },
        Ok(None) => {
            &&& after.metrics.parse_errors == before.metrics.parse_errors
            &&& after.metrics.last_error == before.metrics.last_error
            &&& after.latest_sample == before.latest_sample
            &&& after.metrics.lines_parsed == before.metrics.lines_parsed
            &&& after.metrics.last_line_at == before.metrics.last_line_at
        },
        Ok(Some(m)) => {
            let accepted = !is_duplicate(
                latest_ts(before.latest_sample),
                Instant { secs: m.ts.0 as i64, nanos: m.ts.1 as u32 },
                before.dedupe_within_ms,
            );
            &&& after.metrics.parse_errors == before.metrics.parse_errors
            &&& after.metrics.last_error == before.metrics.last_error
            &&& accepted ==> (after.latest_sample matches Some(s) && s@ == m
                && after.metrics.lines_parsed == saturating_inc(before.metrics.lines_parsed))
            &&& !accepted ==> after.latest_sample == before.latest_sample
                && after.metrics.lines_parsed == before.metrics.lines_parsed
                && after.metrics.last_line_at == before.metrics.last_line_at
        },
    }
}

/// One received line, end to end: its effect, then reading goes on unless a
/// stop was asked, in which case the cycle ends `STOPPED`.
pub open spec fn line_handled(
    before: DriverInner,
    after: DriverInner,
    line: Seq<char>,
    now: (int, int),
    r: Action,
) -> bool {
    &&& exists|out: Result<Option<SampleModel>, ParseError>|
        #[trigger] line_effect(before, after, line, now, out)
    &&& !before.stop_flag ==> r == Action::ReadLine && after.state == before.state
        && after.finished == before.finished
    &&& before.stop_flag ==> r == Action::Finish && after.state == DriverState::STOPPED
        && after.finished
    &&& counters_kept(before, after)
    &&& after.stop_flag == before.stop_flag
    &&& after.started == before.started
    &&& after.backoff == before.backoff
    &&& after.reconnect == before.reconnect
    &&& after.machine_id == before.machine_id
    &&& after.dedupe_within_ms == before.dedupe_within_ms
    &&& after.emit_interval_ms == before.emit_interval_ms
}

/// The elapsed-time origin after a line with outcome `out`: set by the
/// first sample kept since the connection began, else unchanged.
pub open spec fn origin_after(before: DriverInner, out: Result<Option<SampleModel>, ParseError>) -> Option<Instant> {
    match out {
        Ok(Some(m)) => {
            let ts = Instant { secs: m.ts.0 as i64, nanos: m.ts.1 as u32 };
            if !is_duplicate(latest_ts(before.latest_sample), ts, before.dedupe_within_ms)
                && before.start_ts is None {
                Some(ts)
            } else {
                before.start_ts
            }
        },
        _ => before.start_ts,
    }
}

impl DriverInner {
    /// A parsed sample: dropped if it falls within the dedupe window of the
    /// latest one; otherwise it becomes the latest, the first one of a
    /// connection becomes the elapsed-time origin, and the metrics move on.
    pub fn accept_sample(&mut self, sample: Sample) -> (accepted: bool)
        ensures
            accepted == !is_duplicate(latest_ts(old(self).latest_sample), sample.ts, old(self).dedupe_within_ms),
            !accepted ==> *final(self) == *old(self),
            accepted ==> *final(self) == (DriverInner {
                latest_sample: Some(sample),
                start_ts: if old(self).start_ts is None {
                    Some(sample.ts)
                } else {
                    old(self).start_ts
                },
                metrics: DriverMetrics {
                    lines_parsed: saturating_inc(old(self).metrics.lines_parsed),
                    last_line_at: final(self).metrics.last_line_at,
                    ..old(self).metrics
                },
                ..*old(self)
            }),
            accepted ==> opt_view(final(self).metrics.last_line_at) == rfc3339_millis_text(sample.ts@),
    {
        let ts = sample.ts;
        match &self.latest_sample {
            Some(latest) => {
                if self.dedupe_within_ms > 0 {
                    match millis_from(ts, latest.ts) {
                        Some(delta) => {
                            if (delta as i128) < (self.dedupe_within_ms as i128) {
                                return false;
                            }
                        },
                        None => {},
                    }
                }
            },
            None => {},
        }
        self.latest_sample = Some(sample);
        if self.start_ts.is_none() {
            self.start_ts = Some(ts);
        }
        self.metrics.lines_parsed = inc(self.metrics.lines_parsed);
        self.metrics.last_line_at = rfc3339_millis(ts);
        true
    }

    /// Parses one line and ingests its sample, if any. `now` stamps a record
    /// that carries no time.
    pub fn process_line(&mut self, line: &str, now: Instant) -> (r: Result<bool, ParseError>)
        ensures
            exists|out: Result<Option<SampleModel>, ParseError>|
                #[trigger] processed(*old(self), *final(self), line@, now@, out, r),
    {
        let ghost before = *self;
        let parsed = self.parser.parse_line(line, now);
        let ghost out = outcome_view(parsed);
        let r = match parsed {
            Err(e) => Err(e),
            Ok(None) => Ok(false),
            Ok(Some(sample)) => {
                assert(sample.ts == Instant { secs: sample.ts@.0 as i64, nanos: sample.ts@.1 as u32 });
                let accepted = self.accept_sample(sample);
                Ok(accepted)
            },
        };
        assert(processed(before, *self, line@, now@, out, r));
        r
    }

    /// A line arrived at `now`: count it, ingest it, record a parse error;
    /// then read on unless a stop was asked.
    pub fn handle_line_at(&mut self, line: &str, now: Instant) -> (r: Action)
        requires
            old(self).wf(),
        ensures
            final(self).wf(),
            line_handled(*old(self), *final(self), line@, now@, r),
    {
        let ghost before = *self;
        self.metrics.lines_received = inc(self.metrics.lines_received);
        let ghost counted = *self;
        let res = self.process_line(line, now);
        let ghost out = choose|out: Result<Option<SampleModel>, ParseError>|
            processed(counted, *self, line@, now@, out, res);
        match res {
            Ok(_) => {},
            Err(e) => {
                self.metrics.parse_errors = inc(self.metrics.parse_errors);
                self.metrics.last_error = Some(e.message());
            },
        }
        let ghost ingested = *self;
        assert(line_effect(before, ingested, line@, now@, out));
        if self.stop_flag {
            let r = self.end_cycle();
            assert(line_effect(before, *self, line@, now@, out));
            return r;
        }
        Action::ReadLine
    }

    /// A line arrived: as `handle_line_at`, stamped with the current time.
    pub fn handle_line(&mut self, line: &str) -> (r: Action)
        requires
            old(self).wf(),
        ensures
            final(self).wf(),
            exists|now: Instant| #[trigger] line_handled(*old(self), *final(self), line@, now@, r),
    {
        let now = current_instant();
        let r = self.handle_line_at(line, now);
        assert(line_handled(*old(self), *self, line@, now@, r));
        r
    }

    /// What a caller waiting in `connect` learns now: `None` to keep waiting.
    pub fn connect_outcome(&self) -> (r: Option<Result<(), String>>)
        ensures
            self.state == DriverState::CONNECTED ==> r == Some(Ok::<(), String>(())),
            self.state == DriverState::STOPPED ==> (r matches Some(Err(m)) && m@ == "driver stopped"@),
            self.state == DriverState::DISCONNECTED && !self.reconnect.enabled ==> (r matches Some(
                Err(m),
            ) && m@ == error_text(self.metrics.last_error, "disconnected"@)),
            (self.state == DriverState::CONNECTING || (self.state == DriverState::DISCONNECTED
                && self.reconnect.enabled)) ==> r is None,
    {
        match self.state {
            DriverState::CONNECTED => Some(Ok(())),
            DriverState::STOPPED => Some(Err(message_of("driver stopped"))),
            DriverState::DISCONNECTED => {
                if !self.reconnect.enabled {
                    match &self.metrics.last_error {
                        Some(e) => Some(Err(e.clone())),
                        None => Some(Err(message_of("disconnected"))),
                    }
                } else {
                    None
                }
            },
            DriverState::CONNECTING => None,
        }
    }

    /// What a caller waiting for a sample learns now: `None` to keep waiting.
    /// Once the cycle has ended for good, waiting is over.
    pub fn sample_outcome(&self) -> (r: Option<Result<(), String>>)
        ensures
            self.stop_flag ==> (r matches Some(Err(m)) && m@ == "driver stopped"@),
            !self.stop_flag && self.latest_sample is Some ==> r == Some(Ok::<(), String>(())),
            !self.stop_flag && self.latest_sample is None && self.finished ==> (r matches Some(
                Err(m),
            ) && m@ == error_text(self.metrics.last_error, "disconnected"@)),
            !self.stop_flag && self.latest_sample is None && !self.finished ==> r is None,
    {
        if self.stop_flag {
            return Some(Err(message_of("driver stopped")));
        }
        if self.latest_sample.is_some() {
            return Some(Ok(()));
        }
        if self.finished {
            return match &self.metrics.last_error {
                Some(e) => Some(Err(e.clone())),
                None => Some(Err(message_of("disconnected"))),
            };
        }
        None
    }

    /// How long a reader waits for a sample, in milliseconds.
    pub fn read_timeout_ms(&self) -> (r: u64)
        ensures
            r == read_timeout(self.emit_interval_ms),
    {
        let twice: u64 = if self.emit_interval_ms > u64::MAX / 2 {
            u64::MAX
        } else {
            self.emit_interval_ms * 2
        };
        if twice < 500 {
            500
        } else {
            twice
        }
    }

    /// Hands out the latest sample with its elapsed time since the
    /// connection's origin, and counts the read.
    pub fn read_telemetry(&mut self) -> (r: Result<TelemetryPoint, String>)
        ensures
            old(self).stop_flag ==> (r matches Err(m) && m@ == "driver stopped"@ && *final(self)
                == *old(self)),
            !old(self).stop_flag ==> match old(self).latest_sample {
                None => (r matches Err(m) && m@ == "no telemetry yet"@ && *final(self)
                    == *old(self)),
                Some(s) => {
                    let origin = match old(self).start_ts {
                        Some(o) => o,
                        None => s.ts,
                    };
                    &&& is_plain(s.ts@) ==> r is Ok
                    &&& match rfc3339_millis_text(s.ts@) {
                        None => (r matches Err(m) && m@ == "invalid timestamp"@ && *final(self)
                            == *old(self)),
                        Some(text) => (r matches Ok(p) && {
                            &&& p.ts@ == text
                            &&& p.machine_id@ == old(self).machine_id@
                            &&& p.elapsed_ms == elapsed_millis(s.ts, origin)
                            &&& origin == s.ts ==> p.elapsed_ms == 0
                            &&& opt_view(p.bt_c) == opt_view(s.bt_c)
                            &&& opt_view(p.et_c) == opt_view(s.et_c)
                            &&& opt_view(p.gas_pct) == opt_view(s.power_pct)
                            &&& opt_view(p.fan_pct) == opt_view(s.fan_pct)
                            &&& opt_view(p.drum_rpm) == opt_view(s.drum_rpm)
                            &&& extras_view(p.extras@) == extras_view(s.extras@)
                            &&& *final(self) == (DriverInner {
                                start_ts: Some(origin),
                                metrics: DriverMetrics {
                                    telemetry_emitted: saturating_inc(
                                        old(self).metrics.telemetry_emitted,
                                    ),
                                    ..old(self).metrics
                                },
                                ..*old(self)
                            })
                        }),
                    }
                },
            },
    {
        if self.stop_flag {
            return Err(message_of("driver stopped"));
        }
        let (ts, point_ts) = match &self.latest_sample {
            None => {
                return Err(message_of("no telemetry yet"));
            },
            Some(s) => (s.ts, rfc3339_millis(s.ts)),
        };
        let text = match point_ts {
            Some(t) => t,
            None => {
                return Err(message_of("invalid timestamp"));
            },
        };
        let origin = match self.start_ts {
            Some(o) => o,
            None => ts,
        };
        self.start_ts = Some(origin);
        let elapsed_ms: u64 = match millis_from(ts, origin) {
            Some(d) => if d < 0 {
                0
            } else {
                d as u64
            },
            None => 0,
        };
        self.metrics.telemetry_emitted = inc(self.metrics.telemetry_emitted);
        match &self.latest_sample {
            None => Err(message_of("no telemetry yet")),
            Some(s) => Ok(
                TelemetryPoint {
                    ts: text,
                    machine_id: self.machine_id.clone(),
                    elapsed_ms,
                    bt_c: clone_opt(&s.bt_c),
                    et_c: clone_opt(&s.et_c),
                    gas_pct: clone_opt(&s.power_pct),
                    fan_pct: clone_opt(&s.fan_pct),
                    drum_rpm: clone_opt(&s.drum_rpm),
                    extras: clone_extras(&s.extras),
                },
            ),
        }
    }

    /// A snapshot of state and metrics.
    pub fn get_status(&self) -> (r: DriverStatus)
        ensures
            r.state == self.state,
            r.metrics.lines_received == self.metrics.lines_received,
            r.metrics.lines_parsed == self.metrics.lines_parsed,
            r.metrics.parse_errors == self.metrics.parse_errors,
            r.metrics.telemetry_emitted == self.metrics.telemetry_emitted,
            r.metrics.reconnects == self.metrics.reconnects,
            r.metrics.last_error == self.metrics.last_error,
            r.metrics.last_line_at == self.metrics.last_line_at,
    {
        DriverStatus {
            state: self.state,
            metrics: DriverMetrics {
                lines_received: self.metrics.lines_received,
                lines_parsed: self.metrics.lines_parsed,
                parse_errors: self.metrics.parse_errors,
                telemetry_emitted: self.metrics.telemetry_emitted,
                reconnects: self.metrics.reconnects,
                last_error: clone_opt(&self.metrics.last_error),
                last_line_at: clone_opt(&self.metrics.last_line_at),
            },
        }
    }

    /// Asks the cycle to stop for good; the state is `STOPPED` at once.
    pub fn disconnect(&mut self)
        ensures
            *final(self) == (DriverInner { stop_flag: true, state: DriverState::STOPPED, ..*old(self) }),
    {
        self.stop_flag = true;
        self.set_state(DriverState::STOPPED);
    }
}

} // verus!
