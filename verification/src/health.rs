//! Health-check domain types shared between the pipeline, the hidden
//! webview and the UI.
use crate::time::{now_ms, valid_instant};
use vstd::prelude::*;

verus! {

/// What the injected probe concluded about the dashboard.
///
/// The numeric codes mirror HTTP semantics on purpose: the webview reports a
/// status code and it is mapped back to one of these variants.
#[derive(Clone, Copy, Debug, PartialEq, Eq, Structural)]
pub enum Verdict {
    /// Authenticated and the dashboard reacted to the synthetic interaction.
    Healthy,
    /// A login screen was detected: the persisted session expired.
    Unauthorized,
    /// Reached the page but neither marker was found, or the page never settled.
    Degraded,
    /// Navigation failed outright (offline, DNS, TLS...).
    Unreachable,
}

/// The verdict that a probe status code stands for.
pub open spec fn verdict_of(code: u16) -> Verdict {
    if 200 <= code && code <= 299 {
        Verdict::Healthy
    } else if code == 401 || code == 403 {
        Verdict::Unauthorized
    } else if code == 408 || (500 <= code && code <= 599) {
        Verdict::Degraded
    } else {
        Verdict::Unreachable
    }
}

impl Verdict {
    /// Maps a probe status code onto a verdict.
    pub fn from_code(code: u16) -> (r: Verdict)
        ensures
            r == verdict_of(code),
    {
        if 200 <= code && code <= 299 {
            Verdict::Healthy
        } else if code == 401 || code == 403 {
            Verdict::Unauthorized
        } else if code == 408 || (500 <= code && code <= 599) {
            Verdict::Degraded
        } else {
            Verdict::Unreachable
        }
    }

    /// Whether this verdict should prompt the user to re-authenticate.
    pub fn needs_relogin(&self) -> (r: bool)
        ensures
            r == (*self == Verdict::Unauthorized),
    {
        match self {
            Verdict::Unauthorized => true,
            _ => false,
        }
    }
}

/// Coarse lifecycle state driving the UI badge.
#[derive(Clone, Copy, Debug, PartialEq, Eq, Structural)]
pub enum Phase {
    /// Idle, waiting for the next cron tick.
    Ready,
    /// A check is currently running.
    Pinging,
    /// The last check failed or came back unauthorized.
    Error,
}

/// The phase the UI shows after a check with this verdict.
pub open spec fn phase_after(v: Verdict) -> Phase {
    if v == Verdict::Healthy {
        Phase::Ready
    } else {
        Phase::Error
    }
}

/// The outcome of a single health check.
#[derive(Debug, PartialEq, Eq)]
pub struct HealthReport {
    pub code: u16,
    pub verdict: Verdict,
    /// Short human-readable explanation, surfaced in the popover.
    pub detail: String,
    /// End-to-end duration of the injected probe.
    pub latency_ms: u64,
    /// When the report was made, in milliseconds since the epoch.
    pub at: i64,
}

/// `HealthReport` with its detail taken as a character sequence.
pub struct HealthReportView {
    pub code: u16,
    pub verdict: Verdict,
    pub detail: Seq<char>,
    pub latency_ms: u64,
    pub at: i64,
}

impl View for HealthReport {
    type V = HealthReportView;

    open spec fn view(&self) -> HealthReportView {
        HealthReportView {
            code: self.code,
            verdict: self.verdict,
            detail: self.detail@,
            latency_ms: self.latency_ms,
            at: self.at,
        }
    }
}

impl Clone for HealthReport {
    fn clone(&self) -> (r: Self)
        ensures
            r@ == self@,
    {
        HealthReport {
            code: self.code,
            verdict: self.verdict,
            detail: self.detail.clone(),
            latency_ms: self.latency_ms,
            at: self.at,
        }
    }
}

impl HealthReport {
    /// Whether `self` reports `code`, with the verdict that code stands for,
    /// `detail` and `latency_ms`.
    pub open spec fn reports(self, code: u16, detail: Seq<char>, latency_ms: u64) -> bool {
        &&& self.code == code
        &&& self.verdict == verdict_of(code)
        &&& self.detail@ == detail
        &&& self.latency_ms == latency_ms
        &&& valid_instant(self.at as int)
    }

    /// A report stamped with the current time.
    pub fn new(code: u16, detail: String, latency_ms: u64) -> (r: HealthReport)
        ensures
            r.reports(code, detail@, latency_ms),
    {
        HealthReport {
            code,
            verdict: Verdict::from_code(code),
            detail,
            latency_ms,
            at: now_ms(),
        }
    }

    /// The phase the UI should show after this report lands.
    pub fn phase(&self) -> (r: Phase)
        ensures
            r == phase_after(self.verdict),
    {
        match self.verdict {
            Verdict::Healthy => Phase::Ready,
            _ => Phase::Error,
        }
    }
}

/// Raw payload posted back by the injected agent.
#[derive(Debug, PartialEq, Eq)]
pub struct ProbePayload {
    pub code: u16,
    pub detail: String,
    pub latency_ms: u64,
    /// Echoed back so late reports from a previous run can be discarded.
    pub nonce: u64,
}

// ------------------------------------------------------------------ laws

/// Only a healthy verdict returns the UI to Ready; every failing verdict
/// (unauthorized, degraded, unreachable) shows the error phase.
pub proof fn lemma_only_healthy_is_ready(v: Verdict)
    ensures
        (phase_after(v) == Phase::Ready) <==> (v == Verdict::Healthy),
        v != Verdict::Healthy ==> phase_after(v) == Phase::Error,
        phase_after(v) != Phase::Pinging,
{
}

/// By status code: a check leaves the UI Ready exactly when its code is a
/// 2xx success, and a login screen (401/403) is never a success.
pub proof fn lemma_ready_exactly_on_success(code: u16)
    ensures
        (phase_after(verdict_of(code)) == Phase::Ready) <==> (200 <= code && code <= 299),
        (code == 401 || code == 403) <==> verdict_of(code) == Verdict::Unauthorized,
{
}

} // verus!
