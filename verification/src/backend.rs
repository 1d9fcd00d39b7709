//! What the transport reports about itself: its schema, its health, and the
//! address it ended up bound to.

use vstd::prelude::*;

verus! {

pub enum HealthStatus {
    Healthy,
    Unknown,
}

/// The health answer of the transport.
pub struct HealthCheckResult {
    pub status: HealthStatus,
    pub uptime_ms: Option<u64>,
    pub memory_usage_bytes: Option<u64>,
    pub last_error: Option<String>,
}

/// What the transport can carry.
pub struct TransportSchema {
    pub kinds: Vec<String>,
    pub supports_streaming: bool,
    pub supports_websocket: bool,
    pub default_port: Option<u16>,
}

/// What the running server leaves behind: the task serving it, the address it
/// is bound to, and when it started. All three are set together by a start
/// and cleared together by a shutdown.
pub struct Lifecycle<H, T> {
    handle: Option<H>,
    bound_addr: Option<String>,
    started_at: Option<T>,
}

impl<H, T> Lifecycle<H, T> {
    pub closed spec fn spec_handle(&self) -> Option<H> {
        self.handle
    }

    pub closed spec fn spec_bound_addr(&self) -> Option<Seq<char>> {
        match self.bound_addr {
            Some(a) => Some(a@),
            None => None,
        }
    }

    pub closed spec fn spec_started_at(&self) -> Option<T> {
        self.started_at
    }

    /// The server is running: it has a task, an address and a start time.
    pub open spec fn running(&self) -> bool {
        &&& self.spec_handle() is Some
        &&& self.spec_bound_addr() is Some
        &&& self.spec_started_at() is Some
    }

    /// Nothing is running.
    pub open spec fn idle(&self) -> bool {
        &&& self.spec_handle() is None
        &&& self.spec_bound_addr() is None
        &&& self.spec_started_at() is None
    }

    /// Before the first start.
    pub fn new() -> (l: Self)
        ensures
            l.idle(),
    {
        Lifecycle { handle: None, bound_addr: None, started_at: None }
    }

    /// Records a started server; hands back the task of a server started
    /// before, if any, which is replaced.
    pub fn on_started(&mut self, handle: H, bound_addr: String, started_at: T) -> (previous: Option<H>)
        ensures
            previous == old(self).spec_handle(),
            final(self).spec_handle() == Some(handle),
            final(self).spec_bound_addr() == Some(bound_addr@),
            final(self).spec_started_at() == Some(started_at),
            final(self).running(),
    {
        let previous = self.handle.take();
        self.handle = Some(handle);
        self.bound_addr = Some(bound_addr);
        self.started_at = Some(started_at);
        previous
    }

    /// Records how a start at `bind_addr` went: a bound, running server
    /// replaces whatever ran before (whose task is handed back); a failure to
    /// bind leaves everything as it was and reports `failed to bind`.
    pub fn record_start(&mut self, bind_addr: &str, outcome: Result<(H, String, T), String>) -> (r: Result<Option<H>, String>)
        ensures
            start_outcome(*old(self), bind_addr@, outcome, *final(self), r),
    {
        match outcome {
            Ok((handle, bound, at)) => Ok(self.on_started(handle, bound, at)),
            Err(e) => Err(bind_failure_message(bind_addr, e.as_str())),
        }
    }

    /// Records a shutdown; hands back the task to stop, if one runs.
    pub fn on_shutdown(&mut self) -> (task: Option<H>)
        ensures
            task == old(self).spec_handle(),
            final(self).idle(),
    {
        self.bound_addr = None;
        self.started_at = None;
        self.handle.take()
    }

    /// When the running server started.
    pub fn started_at(&self) -> (t: Option<&T>)
        ensures
            match t {
                Some(v) => self.spec_started_at() == Some(*v),
                None => self.spec_started_at() is None,
            },
    {
        match &self.started_at {
            Some(v) => Some(v),
            None => None,
        }
    }

    /// The health of the transport; `elapsed_ms` is the time since the start
    /// it records, when there is one. Healthy exactly while running.
    pub fn health(&self, elapsed_ms: Option<i64>) -> (h: HealthCheckResult)
        ensures
            (h.status is Healthy) == health_of(*self, elapsed_ms).0,
            h.uptime_ms == health_of(*self, elapsed_ms).1,
            self.spec_started_at() is Some && elapsed_ms is Some ==> h.uptime_ms is Some,
            h.memory_usage_bytes is None,
            h.last_error is None,
    {
        if self.started_at.is_some() {
            let mut h = health_report(elapsed_ms);
            h.status = HealthStatus::Healthy;
            h
        } else {
            health_report(None)
        }
    }

    /// The address the running server is bound to.
    pub fn bound_addr(&self) -> (a: Option<&String>)
        ensures
            match a {
                Some(v) => self.spec_bound_addr() == Some(v@),
                None => self.spec_bound_addr() is None,
            },
    {
        match &self.bound_addr {
            Some(v) => Some(v),
            None => None,
        }
    }
}

/// How a start went: a bound server replaces whatever ran before, whose task
/// is handed back; a failure to bind changes nothing and reports
/// `failed to bind {addr}: {error}`.
pub open spec fn start_outcome<H, T>(
    before: Lifecycle<H, T>,
    bind_addr: Seq<char>,
    outcome: Result<(H, String, T), String>,
    after: Lifecycle<H, T>,
    r: Result<Option<H>, String>,
) -> bool {
    match outcome {
        Ok((handle, bound, at)) => {
            &&& r == Ok::<Option<H>, String>(before.spec_handle())
            &&& after.spec_handle() == Some(handle)
            &&& after.spec_bound_addr() == Some(bound@)
            &&& after.spec_started_at() == Some(at)
        },
        Err(e) => {
            &&& r matches Err(m) && m@ == bind_failure_text(bind_addr, e@)
            &&& after == before
        },
    }
}

/// Whether the transport reports healthy, and the uptime it reports.
pub open spec fn health_of<H, T>(l: Lifecycle<H, T>, elapsed_ms: Option<i64>) -> (bool, Option<u64>) {
    if l.spec_started_at() is Some {
        (true, uptime_of(elapsed_ms))
    } else {
        (false, None)
    }
}

/// A start whose bind fails leaves the transport as it was: the same task
/// (a server from an earlier start keeps running and a later shutdown stops
/// it), the same address, and the same health.
pub proof fn lemma_failed_start_changes_nothing<H, T>(
    before: Lifecycle<H, T>,
    after: Lifecycle<H, T>,
    bind_addr: Seq<char>,
    error: String,
    r: Result<Option<H>, String>,
    elapsed_ms: Option<i64>,
)
    requires
        start_outcome(before, bind_addr, Err(error), after, r),
    ensures
        r matches Err(m) && m@ == bind_failure_text(bind_addr, error@),
        after.spec_handle() == before.spec_handle(),
        after.spec_bound_addr() == before.spec_bound_addr(),
        health_of(after, elapsed_ms) == health_of(before, elapsed_ms),
{
}

/// A start that binds hands back the task of the server that ran before it,
/// if any, so that it can be stopped, and leaves the new server running at
/// the address it bound.
pub proof fn lemma_start_hands_back_previous<H, T>(
    before: Lifecycle<H, T>,
    after: Lifecycle<H, T>,
    bind_addr: Seq<char>,
    handle: H,
    bound: String,
    at: T,
    r: Result<Option<H>, String>,
)
    requires
        start_outcome(before, bind_addr, Ok((handle, bound, at)), after, r),
    ensures
        r == Ok::<Option<H>, String>(before.spec_handle()),
        after.running(),
        after.spec_handle() == Some(handle),
        after.spec_bound_addr() == Some(bound@),
{
}

/// A successful start makes the transport healthy; a shutdown makes it
/// report unknown health with no uptime.
pub proof fn lemma_health_follows_start_and_shutdown<H, T>(l: Lifecycle<H, T>, elapsed_ms: Option<i64>)
    ensures
        l.running() ==> health_of(l, elapsed_ms).0,
        l.idle() ==> health_of(l, elapsed_ms) == (false, None::<u64>),
{
}

/// Uptime from the time elapsed since start; a clock that went backwards
/// counts as no time at all.
pub open spec fn uptime_of(elapsed_ms: Option<i64>) -> Option<u64> {
    match elapsed_ms {
        Some(e) => Some(if e < 0 { 0u64 } else { e as u64 }),
        None => None,
    }
}

/// The health of a transport, given the milliseconds since it started, or
/// `None` when it is not running: healthy exactly while running.
pub fn health_report(elapsed_ms: Option<i64>) -> (h: HealthCheckResult)
    ensures
        (h.status is Healthy) <==> elapsed_ms is Some,
        (h.status is Unknown) <==> elapsed_ms is None,
        h.uptime_ms == uptime_of(elapsed_ms),
        elapsed_ms matches Some(e) ==> (e < 0 ==> h.uptime_ms == Some(0u64)) && (e >= 0 ==> h.uptime_ms == Some(e as u64)),
        elapsed_ms is None ==> h.uptime_ms is None,
        h.memory_usage_bytes is None,
        h.last_error is None,
{
    let uptime_ms = match elapsed_ms {
        Some(e) => Some(if e < 0 { 0u64 } else { e as u64 }),
        None => None,
    };
    HealthCheckResult {
        status: if elapsed_ms.is_some() { HealthStatus::Healthy } else { HealthStatus::Unknown },
        uptime_ms,
        memory_usage_bytes: None,
        last_error: None,
    }
}

/// The transport's schema: HTTP/REST on port 8080 by default, unary only.
pub fn transport_schema() -> (s: TransportSchema)
    ensures
        s.kinds@.len() == 2,
        s.kinds@[0]@ == "http"@,
        s.kinds@[1]@ == "rest"@,
        !s.supports_streaming,
        !s.supports_websocket,
        s.default_port == Some(8080u16),
{
    let mut kinds: Vec<String> = Vec::new();
    kinds.push(String::from_str("http"));
    kinds.push(String::from_str("rest"));
    TransportSchema { kinds, supports_streaming: false, supports_websocket: false, default_port: Some(8080) }
}

/// The address reported after binding: the listener's own, or the configured
/// one when the listener cannot tell.
pub fn bound_address(local: Option<String>, configured: &String) -> (a: String)
    ensures
        a@ == match local {
            Some(l) => l@,
            None => configured@,
        },
{
    match local {
        Some(l) => l,
        None => configured.clone(),
    }
}

pub open spec fn bind_failure_text(addr: Seq<char>, err: Seq<char>) -> Seq<char> {
    "failed to bind "@ + addr + ": "@ + err
}

/// The start failure reported when the address cannot be bound.
pub fn bind_failure_message(addr: &str, err: &str) -> (m: String)
    ensures
        m@ == bind_failure_text(addr@, err@),
{
    let mut m = String::from_str("failed to bind ");
    m.append(addr);
    m.append(": ");
    m.append(err);
    m
}

} // verus!
