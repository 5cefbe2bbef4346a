//! Opt-in telemetry with local-only and remote (OTLP) modes behind a consent
//! gate: the sinks, the service state they drive, and the capability entry
//! derived from it.

use vstd::prelude::*;

use crate::capabilities::{CapabilityStatus, opt_chars};
use crate::ids::clone_opt_string;
use crate::text::{
    after_first, after_first_exec, append_chars, append_str, before_first, before_first_exec,
    owned, to_chars, trim, trim_exec,
};

verus! {

broadcast use vstd::string::group_string_axioms;

/// OpenTelemetry Collector default for HTTP/Protobuf transport.
pub const DEFAULT_OTLP_ENDPOINT: &'static str = "http://localhost:4318";

#[derive(Clone, Copy, Debug, PartialEq, Eq, Structural)]
pub enum TelemetryMode {
    Disabled,
    LocalOnly,
    Remote,
}

/// Telemetry state shown on the diagnostics page.
#[derive(Clone, Debug)]
pub struct TelemetrySnapshot {
    pub compiled: bool,
    pub consented: bool,
    pub enabled: bool,
    pub mode: TelemetryMode,
    pub endpoint_redacted: Option<String>,
    pub events_recorded: u64,
    pub last_export_error: Option<String>,
    pub last_error: Option<String>,
}

impl Default for TelemetrySnapshot {
    fn default() -> (r: Self)
        ensures
            r.compiled,
            !r.consented,
            !r.enabled,
            r.mode == TelemetryMode::Disabled,
            r.endpoint_redacted is None,
            r.events_recorded == 0,
            r.last_export_error is None,
            r.last_error is None,
    {
        TelemetrySnapshot {
            compiled: true,
            consented: false,
            enabled: false,
            mode: TelemetryMode::Disabled,
            endpoint_redacted: None,
            events_recorded: 0,
            last_export_error: None,
            last_error: None,
        }
    }
}

/// Why a sink refused a call.
#[derive(Debug, PartialEq, Eq)]
pub enum TelemetryError {
    NotAvailable(String),
    Otlp(String),
}

pub open spec fn telemetry_error_message(e: TelemetryError) -> Seq<char> {
    match e {
        TelemetryError::NotAvailable(m) => "telemetry not available: "@ + m@,
        TelemetryError::Otlp(m) => "OTLP error: "@ + m@,
    }
}

impl TelemetryError {
    /// The human-readable message.
    pub fn to_string(&self) -> (r: String)
        ensures
            r@ == telemetry_error_message(*self),
    {
        match self {
            TelemetryError::NotAvailable(m) => {
                let mut s = owned("telemetry not available: ");
                append_str(&mut s, m.as_str());
                s
            },
            TelemetryError::Otlp(m) => {
                let mut s = owned("OTLP error: ");
                append_str(&mut s, m.as_str());
                s
            },
        }
    }
}

/// Where telemetry goes. Implemented by the built-in sinks and by callers'
/// own sinks.
pub trait TelemetrySink {
    fn record_event(&self, name: &str) -> Result<(), TelemetryError>;

    fn record_error(&self, error: &str) -> Result<(), TelemetryError>;

    fn set_user_properties(&self, key: &str, value: &str) -> Result<(), TelemetryError>;

    fn flush(&self) -> Result<(), TelemetryError>;
}

/// Accepts and drops everything.
pub struct DisabledSink;

impl TelemetrySink for DisabledSink {
    fn record_event(&self, _name: &str) -> (r: Result<(), TelemetryError>)
        ensures
            r is Ok,
    {
        Ok(())
    }

    fn record_error(&self, _error: &str) -> (r: Result<(), TelemetryError>)
        ensures
            r is Ok,
    {
        Ok(())
    }

    fn set_user_properties(&self, _key: &str, _value: &str) -> (r: Result<(), TelemetryError>)
        ensures
            r is Ok,
    {
        Ok(())
    }

    fn flush(&self) -> (r: Result<(), TelemetryError>)
        ensures
            r is Ok,
    {
        Ok(())
    }
}

/// Keeps telemetry on this machine (the application log).
pub struct LocalSink;

impl TelemetrySink for LocalSink {
    fn record_event(&self, _name: &str) -> (r: Result<(), TelemetryError>)
        ensures
            r is Ok,
    {
        Ok(())
    }

    fn record_error(&self, _error: &str) -> (r: Result<(), TelemetryError>)
        ensures
            r is Ok,
    {
        Ok(())
    }

    fn set_user_properties(&self, _key: &str, _value: &str) -> (r: Result<(), TelemetryError>)
        ensures
            r is Ok,
    {
        Ok(())
    }

    fn flush(&self) -> (r: Result<(), TelemetryError>)
        ensures
            r is Ok,
    {
        Ok(())
    }
}

/// Install the remote exporter for `endpoint`. This build exports through
/// the tracing pipeline only, which needs no setup, so installation always
/// succeeds.
fn install_otlp_tracer(_endpoint: &str) -> (r: Result<(), TelemetryError>)
    ensures
        r is Ok,
{
    Ok(())
}

/// Sends telemetry to a collector; refuses every call while not connected.
pub struct RemoteSink {
    pub endpoint: String,
    pub connected: bool,
}

/// The refusal a disconnected remote sink answers with.
pub open spec fn not_connected_error(endpoint: Seq<char>) -> Seq<char> {
    "OTLP exporter not connected to "@ + endpoint
}

pub open spec fn remote_outcome(sink: RemoteSink, r: Result<(), TelemetryError>) -> bool {
    if sink.connected {
        r is Ok
    } else {
        r matches Err(TelemetryError::NotAvailable(m)) && m@ == not_connected_error(sink.endpoint@)
    }
}

impl RemoteSink {
    /// A remote sink for `endpoint`, connected when the exporter installs.
    pub fn new(endpoint: &str) -> (r: Self)
        ensures
            r.endpoint@ == endpoint@,
            r.connected,
    {
        let connected = install_otlp_tracer(endpoint).is_ok();
        RemoteSink { endpoint: owned(endpoint), connected }
    }

    /// Gate for calls that need collector connectivity.
    pub fn require_connected(&self) -> (r: Result<(), TelemetryError>)
        ensures
            remote_outcome(*self, r),
    {
        if self.connected {
            Ok(())
        } else {
            let mut m = owned("OTLP exporter not connected to ");
            append_str(&mut m, self.endpoint.as_str());
            Err(TelemetryError::NotAvailable(m))
        }
    }
}

impl TelemetrySink for RemoteSink {
    fn record_event(&self, _name: &str) -> (r: Result<(), TelemetryError>)
        ensures
            remote_outcome(*self, r),
    {
        self.require_connected()
    }

    fn record_error(&self, _error: &str) -> (r: Result<(), TelemetryError>)
        ensures
            remote_outcome(*self, r),
    {
        self.require_connected()
    }

    fn set_user_properties(&self, _key: &str, _value: &str) -> (r: Result<(), TelemetryError>)
        ensures
            remote_outcome(*self, r),
    {
        self.require_connected()
    }

    fn flush(&self) -> (r: Result<(), TelemetryError>)
        ensures
            remote_outcome(*self, r),
    {
        self.require_connected()
    }
}

/// The sink the service currently routes to.
pub enum ActiveSink {
    Disabled(DisabledSink),
    Local(LocalSink),
    Remote(RemoteSink),
}

/// The outcome any call on a sink has.
pub open spec fn sink_outcome(sink: ActiveSink, r: Result<(), TelemetryError>) -> bool {
    match sink {
        ActiveSink::Disabled(_) => r is Ok,
        ActiveSink::Local(_) => r is Ok,
        ActiveSink::Remote(s) => remote_outcome(s, r),
    }
}

impl ActiveSink {
    pub fn record_event(&self, name: &str) -> (r: Result<(), TelemetryError>)
        ensures
            sink_outcome(*self, r),
    {
        match self {
            ActiveSink::Disabled(s) => s.record_event(name),
            ActiveSink::Local(s) => s.record_event(name),
            ActiveSink::Remote(s) => s.record_event(name),
        }
    }

    pub fn record_error(&self, error: &str) -> (r: Result<(), TelemetryError>)
        ensures
            sink_outcome(*self, r),
    {
        match self {
            ActiveSink::Disabled(s) => s.record_error(error),
            ActiveSink::Local(s) => s.record_error(error),
            ActiveSink::Remote(s) => s.record_error(error),
        }
    }

    pub fn set_user_properties(&self, key: &str, value: &str) -> (r: Result<(), TelemetryError>)
        ensures
            sink_outcome(*self, r),
    {
        match self {
            ActiveSink::Disabled(s) => s.set_user_properties(key, value),
            ActiveSink::Local(s) => s.set_user_properties(key, value),
            ActiveSink::Remote(s) => s.set_user_properties(key, value),
        }
    }

    pub fn flush(&self) -> (r: Result<(), TelemetryError>)
        ensures
            sink_outcome(*self, r),
    {
        match self {
            ActiveSink::Disabled(s) => s.flush(),
            ActiveSink::Local(s) => s.flush(),
            ActiveSink::Remote(s) => s.flush(),
        }
    }
}

/// The endpoint telemetry exports to: the explicit one when it is not
/// blank, then the environment's, then the default; trimmed.
pub open spec fn resolved_endpoint(
    explicit: Option<Seq<char>>,
    env_value: Option<Seq<char>>,
) -> Seq<char> {
    match explicit {
        Some(e) if trim(e).len() > 0 => trim(e),
        _ => match env_value {
            Some(v) if trim(v).len() > 0 => trim(v),
            _ => "http://localhost:4318"@,
        },
    }
}

pub open spec fn opt_str_chars(s: Option<&str>) -> Option<Seq<char>> {
    match s {
        Some(t) => Some(t@),
        None => None,
    }
}

/// Explicit endpoint wins, then the `OTEL_EXPORTER_OTLP_ENDPOINT` value the
/// caller read, then the default.
pub fn resolve_otlp_endpoint(explicit: Option<&str>, env_value: Option<&str>) -> (r: String)
    ensures
        r@ == resolved_endpoint(opt_str_chars(explicit), opt_str_chars(env_value)),
{
    if let Some(ep) = explicit {
        let t = trim_exec(to_chars(ep).as_slice());
        if t.len() > 0 {
            return crate::text::from_chars(t.as_slice());
        }
    }
    if let Some(v) = env_value {
        let t = trim_exec(to_chars(v).as_slice());
        if t.len() > 0 {
            return crate::text::from_chars(t.as_slice());
        }
    }
    owned(DEFAULT_OTLP_ENDPOINT)
}

/// `://`
pub open spec fn scheme_sep() -> Seq<char> {
    seq![':', '/', '/']
}

/// The host part of an endpoint: after the scheme separator (if any), up to
/// a second separator and then up to the first `/`.
pub open spec fn endpoint_host(e: Seq<char>) -> Seq<char> {
    let piece = match after_first(e, scheme_sep()) {
        Some(rest) => before_first(rest, scheme_sep()),
        None => e,
    };
    before_first(piece, seq!['/'])
}

/// The redacted form of an endpoint: its host plus a trailing ellipsis.
pub open spec fn redacted_endpoint(endpoint: Seq<char>) -> Option<Seq<char>> {
    let e = trim(endpoint);
    if e.len() == 0 {
        None
    } else {
        Some(endpoint_host(e) + seq!['/', '\u{2026}'])
    }
}

/// Host plus a trailing ellipsis: enough to identify the collector, never
/// the path.
pub fn redact_endpoint(endpoint: &str) -> (r: Option<String>)
    ensures
        opt_chars(r) == redacted_endpoint(endpoint@),
{
    let e = trim_exec(to_chars(endpoint).as_slice());
    if e.len() == 0 {
        return None;
    }
    let sep: [char; 3] = [':', '/', '/'];
    assert(sep@ =~= scheme_sep());
    let piece = match after_first_exec(e.as_slice(), &sep) {
        Some(rest) => before_first_exec(rest.as_slice(), &sep),
        None => e,
    };
    let slash: [char; 1] = ['/'];
    assert(slash@ =~= seq!['/']);
    let host = before_first_exec(piece.as_slice(), &slash);
    let mut out = crate::text::from_chars(host.as_slice());
    let tail: [char; 2] = ['/', '\u{2026}'];
    append_chars(&mut out, &tail);
    assert(out@ =~= endpoint_host(trim(endpoint@)) + seq!['/', '\u{2026}']);
    Some(out)
}

/// Which sink a mode and consent select: nothing leaves the app without
/// consent.
pub open spec fn selected_sink_kind(mode: TelemetryMode, consented: bool) -> TelemetryMode {
    if !consented {
        TelemetryMode::Disabled
    } else {
        mode
    }
}

pub open spec fn sink_kind(s: ActiveSink) -> TelemetryMode {
    match s {
        ActiveSink::Disabled(_) => TelemetryMode::Disabled,
        ActiveSink::Local(_) => TelemetryMode::LocalOnly,
        ActiveSink::Remote(_) => TelemetryMode::Remote,
    }
}

/// Why the sink refuses every call, if it does: a remote sink that is not
/// connected answers with its "not connected" error.
pub open spec fn sink_refusal(sink: ActiveSink) -> Option<Seq<char>> {
    match sink {
        ActiveSink::Remote(s) => if s.connected {
            None
        } else {
            Some("telemetry not available: "@ + not_connected_error(s.endpoint@))
        },
        _ => None,
    }
}

/// The snapshot after one call went through `sink`: an accepted call
/// counts (saturating) and clears the last error; a refused one leaves the
/// count and records the refusal as the last (export) error.
pub open spec fn recorded_through(old: TelemetrySnapshot, new: TelemetrySnapshot, sink: ActiveSink) -> bool {
    &&& new.mode == old.mode
    &&& new.enabled == old.enabled
    &&& new.consented == old.consented
    &&& match sink_refusal(sink) {
        None => {
            &&& new.events_recorded == if old.events_recorded == u64::MAX {
                u64::MAX
            } else {
                (old.events_recorded + 1) as u64
            }
            &&& new.last_error is None
            &&& opt_chars(new.last_export_error) == opt_chars(old.last_export_error)
        },
        Some(m) => {
            &&& new.events_recorded == old.events_recorded
            &&& opt_chars(new.last_error) == Some(m)
            &&& opt_chars(new.last_export_error) == Some(m)
        },
    }
}

/// The telemetry service: its snapshot and the sink it routes to.
pub struct TelemetryService {
    pub snapshot: TelemetrySnapshot,
    pub sink: ActiveSink,
}

/// The capability entry a telemetry snapshot stands for.
pub fn telemetry_capability(snapshot: &TelemetrySnapshot) -> (r: CapabilityStatus)
    ensures
        r.supported == snapshot.compiled,
        r.enabled == snapshot.enabled,
        r.degraded == snapshot.last_error is Some,
        opt_chars(r.reason) == if !snapshot.consented {
            Some("telemetry disabled until consent"@)
        } else {
            None
        },
        opt_chars(r.last_error) == opt_chars(snapshot.last_error),
{
    CapabilityStatus {
        supported: snapshot.compiled,
        enabled: snapshot.enabled,
        degraded: snapshot.last_error.is_some(),
        reason: if !snapshot.consented {
            Some(owned("telemetry disabled until consent"))
        } else {
            None
        },
        last_error: clone_opt_string(&snapshot.last_error),
    }
}

impl TelemetryService {
    /// The service at startup: compiled in but disabled, nothing recorded,
    /// no endpoint, no errors, routed to the disabled sink.
    pub fn new() -> (r: Self)
        ensures
            r.snapshot.compiled,
            !r.snapshot.consented,
            !r.snapshot.enabled,
            r.snapshot.mode == TelemetryMode::Disabled,
            r.snapshot.endpoint_redacted is None,
            r.snapshot.events_recorded == 0,
            r.snapshot.last_export_error is None,
            r.snapshot.last_error is None,
            sink_kind(r.sink) == TelemetryMode::Disabled,
    {
        TelemetryService {
            snapshot: TelemetrySnapshot::default(),
            sink: ActiveSink::Disabled(DisabledSink),
        }
    }

    /// Set the mode, consent, and optional endpoint override (with the
    /// environment's endpoint as the fallback). Only consent switches
    /// telemetry on; the event count carries over.
    pub fn set_mode(
        &mut self,
        mode: TelemetryMode,
        consented: bool,
        endpoint: Option<&str>,
        env_endpoint: Option<&str>,
    )
        ensures
            final(self).snapshot.compiled,
            final(self).snapshot.consented == consented,
            final(self).snapshot.mode == mode,
            final(self).snapshot.enabled == (consented && mode != TelemetryMode::Disabled),
            final(self).snapshot.events_recorded == old(self).snapshot.events_recorded,
            final(self).snapshot.last_error is None,
            final(self).snapshot.last_export_error is None,
            opt_chars(final(self).snapshot.endpoint_redacted) == redacted_endpoint(
                resolved_endpoint(opt_str_chars(endpoint), opt_str_chars(env_endpoint)),
            ),
            sink_kind(final(self).sink) == selected_sink_kind(mode, consented),
            final(self).sink matches ActiveSink::Remote(s) ==> s.connected && s.endpoint@
                == resolved_endpoint(opt_str_chars(endpoint), opt_str_chars(env_endpoint)),
    {
        let resolved = resolve_otlp_endpoint(endpoint, env_endpoint);
        let endpoint_redacted = redact_endpoint(resolved.as_str());
        let enabled = consented && mode != TelemetryMode::Disabled;
        let sink = if !consented {
            ActiveSink::Disabled(DisabledSink)
        } else {
            match mode {
                TelemetryMode::Disabled => ActiveSink::Disabled(DisabledSink),
                TelemetryMode::LocalOnly => ActiveSink::Local(LocalSink),
                TelemetryMode::Remote => ActiveSink::Remote(RemoteSink::new(resolved.as_str())),
            }
        };
        self.snapshot = TelemetrySnapshot {
            compiled: true,
            consented,
            enabled,
            mode,
            endpoint_redacted,
            events_recorded: self.snapshot.events_recorded,
            last_export_error: None,
            last_error: None,
        };
        self.sink = sink;
    }

    fn handle_record_result(&mut self, result: Result<(), TelemetryError>)
        ensures
            final(self).sink == old(self).sink,
            final(self).snapshot.mode == old(self).snapshot.mode,
            final(self).snapshot.enabled == old(self).snapshot.enabled,
            final(self).snapshot.consented == old(self).snapshot.consented,
            match result {
                Ok(()) => final(self).snapshot.events_recorded == if old(self).snapshot.events_recorded == u64::MAX {
                    u64::MAX
                } else {
                    (old(self).snapshot.events_recorded + 1) as u64
                } && final(self).snapshot.last_error is None && opt_chars(
                    final(self).snapshot.last_export_error,
                ) == opt_chars(old(self).snapshot.last_export_error),
                Err(e) => final(self).snapshot.events_recorded == old(self).snapshot.events_recorded && opt_chars(final(self).snapshot.last_error) == Some(
                    telemetry_error_message(e),
                ) && opt_chars(final(self).snapshot.last_export_error) == Some(
                    telemetry_error_message(e),
                ),
            },
    {
        match result {
            Ok(()) => {
                self.snapshot.events_recorded = self.snapshot.events_recorded.saturating_add(1);
                self.snapshot.last_error = None;
            },
            Err(err) => {
                self.snapshot.last_export_error = Some(err.to_string());
                self.snapshot.last_error = Some(err.to_string());
            },
        }
    }

    /// Record a named event through the active sink.
    pub fn record_event(&mut self, name: &str)
        ensures
            final(self).sink == old(self).sink,
            recorded_through(old(self).snapshot, final(self).snapshot, old(self).sink),
    {
        let result = self.sink.record_event(name);
        self.handle_record_result(result);
    }

    /// Record an error report through the active sink.
    pub fn record_error(&mut self, error: &str)
        ensures
            final(self).sink == old(self).sink,
            recorded_through(old(self).snapshot, final(self).snapshot, old(self).sink),
    {
        let result = self.sink.record_error(error);
        self.handle_record_result(result);
    }

    /// Set a user property through the active sink.
    pub fn set_user_property(&mut self, key: &str, value: &str)
        ensures
            final(self).sink == old(self).sink,
            recorded_through(old(self).snapshot, final(self).snapshot, old(self).sink),
    {
        let result = self.sink.set_user_properties(key, value);
        self.handle_record_result(result);
    }

    /// Flush the active sink; a failure is recorded, success changes nothing.
    pub fn flush(&mut self)
        ensures
            final(self).sink == old(self).sink,
            final(self).snapshot.events_recorded == old(self).snapshot.events_recorded,
            final(self).snapshot.enabled == old(self).snapshot.enabled,
            final(self).snapshot.mode == old(self).snapshot.mode,
            match sink_refusal(old(self).sink) {
                None => opt_chars(final(self).snapshot.last_error) == opt_chars(
                    old(self).snapshot.last_error,
                ) && opt_chars(final(self).snapshot.last_export_error) == opt_chars(
                    old(self).snapshot.last_export_error,
                ),
                Some(m) => opt_chars(final(self).snapshot.last_error) == Some(m) && opt_chars(
                    final(self).snapshot.last_export_error,
                ) == Some(m),
            },
    {
        if let Err(err) = self.sink.flush() {
            self.snapshot.last_export_error = Some(err.to_string());
            self.snapshot.last_error = Some(err.to_string());
        }
    }

    /// The capability entry for the registry: a degraded entry always
    /// carries the error that degraded it.
    pub fn capability(&self) -> (r: CapabilityStatus)
        ensures
            r.supported == self.snapshot.compiled,
            r.enabled == self.snapshot.enabled,
            r.degraded == self.snapshot.last_error is Some,
            opt_chars(r.reason) == if !self.snapshot.consented {
                Some("telemetry disabled until consent"@)
            } else {
                None
            },
            opt_chars(r.last_error) == opt_chars(self.snapshot.last_error),
            r.degraded <==> r.last_error is Some,
    {
        telemetry_capability(&self.snapshot)
    }
}

/// Law: telemetry is switched on only with consent, and nothing is routed
/// anywhere (not even locally) without it.
pub proof fn lemma_consent_gate(mode: TelemetryMode)
    ensures
        selected_sink_kind(mode, false) == TelemetryMode::Disabled,
        !(false && mode != TelemetryMode::Disabled),
{
}

} // verus!
