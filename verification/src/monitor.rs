//! The health-check pipeline's decisions: what a heartbeat means, what a
//! check reports, when to notify, how long a check may take, and what the
//! tray tooltip reads. The application performs the webview work these
//! decisions call for.
use crate::config::{Config, Interaction};
use crate::health::{verdict_of, HealthReport, Phase, ProbePayload, Verdict};
use crate::scheduler::{countdown_text, format_countdown};
use crate::time::valid_instant;
use crate::usage::{payload_safe, snapshot_of, UsageProbePayload, UsageSnapshot};
use vstd::prelude::*;

verus! {

/// A read-only heartbeat should answer almost instantly.
pub const HEARTBEAT_TIMEOUT_MS: u64 = 8_000;

/// Fixed slack for IPC round-trips and JS engine overhead, on top of the
/// configured waits.
pub const FIXED_OVERHEAD_MS: u64 = 2_000;

/// The same slack, for the usage scrape.
pub const USAGE_FIXED_OVERHEAD_MS: u64 = 2_000;

/// Why a probe produced no report.
#[derive(Debug, PartialEq, Eq)]
pub enum ProbeError {
    /// No report arrived in time.
    Timeout,
    /// The script could not be evaluated.
    Eval(String),
}

/// What the pipeline should do once the heartbeat comes back.
#[derive(Debug, PartialEq, Eq)]
pub enum Next {
    /// Stop and publish this report: nothing worth interacting with.
    Abort(HealthReport),
    /// The dashboard looks authenticated; run the synthetic interaction.
    Proceed,
}

/// "injection failed: " followed by the evaluation error.
pub open spec fn injection_failed_text(e: Seq<char>) -> Seq<char> {
    "injection failed: "@ + e
}

fn injection_failed(e: &String) -> (r: String)
    ensures
        r@ == injection_failed_text(e@),
{
    let mut s = String::from_str("injection failed: ");
    s.append(e.as_str());
    s
}

/// The report (code, detail, latency) a heartbeat result aborts the check
/// with, or `None` when the check should go on.
pub open spec fn heartbeat_abort(result: Result<ProbePayload, ProbeError>) -> Option<
    (u16, Seq<char>, u64),
> {
    match result {
        Err(ProbeError::Timeout) => Some((408u16, "heartbeat timed out"@, HEARTBEAT_TIMEOUT_MS)),
        Err(ProbeError::Eval(e)) => Some((0u16, injection_failed_text(e@), 0u64)),
        Ok(p) => if p.code == 401 {
            Some((401u16, p.detail@, p.latency_ms))
        } else {
            None
        },
    }
}

/// Decides whether a heartbeat result justifies driving the page: a login
/// screen, a timeout or a failed evaluation stop the check.
pub fn decide_after_heartbeat(result: Result<ProbePayload, ProbeError>) -> (n: Next)
    ensures
        match (n, heartbeat_abort(result)) {
            (Next::Abort(r), Some((code, detail, latency))) => r.reports(code, detail, latency),
            (Next::Proceed, None) => true,
            _ => false,
        },
{
    match result {
        Err(ProbeError::Timeout) => Next::Abort(
            HealthReport::new(408, String::from_str("heartbeat timed out"), HEARTBEAT_TIMEOUT_MS),
        ),
        Err(ProbeError::Eval(e)) => Next::Abort(HealthReport::new(0, injection_failed(&e), 0)),
        Ok(payload) => {
            if payload.code == 401 {
                Next::Abort(HealthReport::new(401, payload.detail, payload.latency_ms))
            } else {
                Next::Proceed
            }
        },
    }
}

/// `budget_ms as u64`: the low 64 bits.
pub open spec fn low_u64(x: u128) -> u64 {
    (x % 0x1_0000_0000_0000_0000u128) as u64
}

/// The report (code, detail, latency) for the outcome of the full check.
pub open spec fn probe_report(result: Result<ProbePayload, ProbeError>, budget_ms: u128) -> (
    u16,
    Seq<char>,
    u64,
) {
    match result {
        Ok(p) => (p.code, p.detail@, p.latency_ms),
        Err(ProbeError::Timeout) => (408u16, "check timed out"@, low_u64(budget_ms)),
        Err(ProbeError::Eval(e)) => (0u16, injection_failed_text(e@), 0u64),
    }
}

/// Turns the outcome of the full check into the report the UI will show; a
/// timeout reports the budget as its latency.
pub fn report_from_probe(result: Result<ProbePayload, ProbeError>, budget_ms: u128) -> (r:
    HealthReport)
    ensures
        r.reports(
            probe_report(result, budget_ms).0,
            probe_report(result, budget_ms).1,
            probe_report(result, budget_ms).2,
        ),
{
    match result {
        Ok(payload) => HealthReport::new(payload.code, payload.detail, payload.latency_ms),
        Err(ProbeError::Timeout) => HealthReport::new(
            408,
            String::from_str("check timed out"),
            (budget_ms % 0x1_0000_0000_0000_0000u128) as u64,
        ),
        Err(ProbeError::Eval(e)) => HealthReport::new(0, injection_failed(&e), 0),
    }
}

/// Fires the "session expired" notification only on the transition into
/// that state, and only when notifications are enabled.
pub fn should_notify(needs_relogin: bool, was_already_flagged: bool, enabled: bool) -> (r: bool)
    ensures
        r == (needs_relogin && !was_already_flagged && enabled),
{
    needs_relogin && !was_already_flagged && enabled
}

pub open spec fn confirmed(heartbeat: Result<ProbePayload, ProbeError>) -> bool {
    heartbeat matches Ok(p) && p.code == 200
}

/// Only an explicit 200 counts as "confirmed signed in": a verification-code
/// prompt matches neither marker and reports 503, which must not count.
pub fn is_confirmed_authenticated(heartbeat: &Result<ProbePayload, ProbeError>) -> (r: bool)
    ensures
        r == confirmed(*heartbeat),
{
    match heartbeat {
        Ok(payload) => payload.code == 200,
        Err(_) => false,
    }
}

/// The report (code, detail, latency) for a heartbeat that did not confirm
/// sign-in: the heartbeat's own abort report, or a 503 when it would have
/// let the check go on.
pub open spec fn heartbeat_report(heartbeat: Result<ProbePayload, ProbeError>) -> (
    u16,
    Seq<char>,
    u64,
) {
    match heartbeat_abort(heartbeat) {
        Some(r) => r,
        None => (503u16, "neither auth nor login marker found"@, 0u64),
    }
}

/// A report worth showing for a heartbeat that did not confirm sign-in.
pub fn report_from_heartbeat(heartbeat: Result<ProbePayload, ProbeError>) -> (r: HealthReport)
    ensures
        r.reports(
            heartbeat_report(heartbeat).0,
            heartbeat_report(heartbeat).1,
            heartbeat_report(heartbeat).2,
        ),
{
    match decide_after_heartbeat(heartbeat) {
        Next::Abort(report) => report,
        Next::Proceed => HealthReport::new(
            503,
            String::from_str("neither auth nor login marker found"),
            0,
        ),
    }
}

// ------------------------------------------------------------------ pipeline steps

/// What a health check does once its heartbeat is back.
#[derive(Debug, PartialEq, Eq)]
pub enum AfterHeartbeat {
    /// Publish this report; the check is over.
    Finish(HealthReport),
    /// Run the synthetic interaction.
    Interact,
}

/// The step after the heartbeat: stop on what the heartbeat aborts on; in
/// probe-only mode stop with the heartbeat's code ("session alive (probe
/// only)"); otherwise go on to drive the page.
pub fn after_heartbeat(interaction: Interaction, heartbeat: Result<ProbePayload, ProbeError>) -> (r:
    AfterHeartbeat)
    ensures
        match heartbeat_abort(heartbeat) {
            Some((code, detail, latency)) => r matches AfterHeartbeat::Finish(rep) && rep.reports(
                code,
                detail,
                latency,
            ),
            None => if interaction == Interaction::ProbeOnly {
                r matches AfterHeartbeat::Finish(rep) && rep.reports(
                    heartbeat->Ok_0.code,
                    "session alive (probe only)"@,
                    0,
                )
            } else {
                r == AfterHeartbeat::Interact
            },
        },
{
    let heartbeat_code = match &heartbeat {
        Ok(p) => p.code,
        Err(_) => 0,
    };
    match decide_after_heartbeat(heartbeat) {
        Next::Abort(report) => AfterHeartbeat::Finish(report),
        Next::Proceed => {
            match interaction {
                Interaction::ProbeOnly => AfterHeartbeat::Finish(
                    HealthReport::new(heartbeat_code, String::from_str("session alive (probe only)"), 0),
                ),
                Interaction::Full => AfterHeartbeat::Interact,
            }
        },
    }
}

/// What re-checking the session after a manual sign-in concluded.
#[derive(Debug, PartialEq, Eq)]
pub enum ReloginCheck {
    /// Signed in: publish this report and resume monitoring.
    SignedIn(HealthReport),
    /// Still signed out: publish the report and answer with the message.
    StillSignedOut { report: HealthReport, message: String },
}

/// Decides a sign-in confirmation from its heartbeat: only an explicit 200
/// counts; anything else keeps the recovery UI up, explained by the report's
/// detail ("still not signed in — ...").
pub fn relogin_check(heartbeat: Result<ProbePayload, ProbeError>) -> (r: ReloginCheck)
    ensures
        confirmed(heartbeat) ==> (r matches ReloginCheck::SignedIn(rep) && rep.reports(
            200,
            "signed in — resuming monitoring"@,
            0,
        )),
        !confirmed(heartbeat) ==> (r matches ReloginCheck::StillSignedOut { report, message } && {
            &&& report.reports(
                heartbeat_report(heartbeat).0,
                heartbeat_report(heartbeat).1,
                heartbeat_report(heartbeat).2,
            )
            &&& message@ == "still not signed in — "@ + heartbeat_report(heartbeat).1
        }),
{
    if is_confirmed_authenticated(&heartbeat) {
        return ReloginCheck::SignedIn(
            HealthReport::new(200, String::from_str("signed in — resuming monitoring"), 0),
        );
    }
    let report = report_from_heartbeat(heartbeat);
    let mut message = String::from_str("still not signed in — ");
    message.append(report.detail.as_str());
    ReloginCheck::StillSignedOut { report, message }
}

/// What a background sign-in poll publishes: the "signed in" report when
/// the heartbeat confirms the session, and nothing at all otherwise, since
/// most polls land while the user is still signing in.
pub fn relogin_poll(heartbeat: Result<ProbePayload, ProbeError>) -> (r: Option<HealthReport>)
    ensures
        confirmed(heartbeat) ==> (r matches Some(rep) && rep.reports(
            200,
            "signed in — resuming monitoring"@,
            0,
        )),
        !confirmed(heartbeat) ==> r is None,
{
    match relogin_check(heartbeat) {
        ReloginCheck::SignedIn(report) => Some(report),
        ReloginCheck::StillSignedOut { .. } => None,
    }
}

pub open spec fn webview_missing_text() -> Seq<char> {
    "monitor webview is not running"@
}

/// Why a check that needs the monitor webview could not run.
pub fn webview_missing() -> (r: String)
    ensures
        r@ == webview_missing_text(),
{
    String::from_str("monitor webview is not running")
}

/// The report of a health check that found no monitor webview to drive.
pub fn missing_webview_report() -> (r: HealthReport)
    ensures
        r.reports(0, webview_missing_text(), 0),
{
    HealthReport::new(0, webview_missing(), 0)
}

pub open spec fn busy_text() -> Seq<char> {
    "a check is currently running — try again in a moment"@
}

/// The answer to a request that needs the check slot while a check runs.
pub fn check_busy() -> (r: String)
    ensures
        r@ == busy_text(),
{
    String::from_str("a check is currently running — try again in a moment")
}

// ------------------------------------------------------------------ budgets

/// `u64::saturating_mul`.
pub open spec fn sat_mul(a: u64, b: u64) -> u64 {
    if a * b > u64::MAX {
        u64::MAX
    } else {
        (a * b) as u64
    }
}

fn saturating_mul(a: u64, b: u64) -> (r: u64)
    ensures
        r == sat_mul(a, b),
{
    match a.checked_mul(b) {
        Some(x) => x,
        None => u64::MAX,
    }
}

/// How many independent element waits a full check can spend: one for the
/// text input (and submit button), plus one for the reply and one per
/// configured cleanup step.
pub open spec fn wait_passes(c: Config) -> u64 {
    (1 + (if c.selectors.response is Some {
        1int
    } else {
        0
    }) + (if c.cleanup.menu_button is Some {
        1int
    } else {
        0
    }) + (if c.cleanup.delete_option is Some {
        1int
    } else {
        0
    }) + (if c.cleanup.confirm_button is Some {
        1int
    } else {
        0
    })) as u64
}

/// The configured waits of a full check, in milliseconds: typing, settle and
/// the element waits (each product saturating).
pub open spec fn configured_waits(c: Config) -> int {
    sat_mul(c.typing_delay_ms, c.payload@.len() as u64) + c.settle_ms + sat_mul(
        c.element_timeout_ms,
        wait_passes(c),
    )
}

/// The typing time and the element waits of a full check, each product
/// saturating as `u64::saturating_mul` does.
fn waits(cfg: &Config) -> (r: (u64, u64))
    ensures
        r.0 == sat_mul(cfg.typing_delay_ms, cfg.payload@.len() as u64),
        r.1 == sat_mul(cfg.element_timeout_ms, wait_passes(*cfg)),
{
    let typing = saturating_mul(cfg.typing_delay_ms, cfg.payload.as_str().unicode_len() as u64);
    let mut wait_passes: u64 = 1;
    if cfg.selectors.response.is_some() {
        wait_passes = wait_passes + 1;
    }
    if cfg.cleanup.menu_button.is_some() {
        wait_passes = wait_passes + 1;
    }
    if cfg.cleanup.delete_option.is_some() {
        wait_passes = wait_passes + 1;
    }
    if cfg.cleanup.confirm_button.is_some() {
        wait_passes = wait_passes + 1;
    }
    (typing, saturating_mul(cfg.element_timeout_ms, wait_passes))
}

/// How long a full check may take, in milliseconds: the configured waits
/// plus fixed overhead. The waits must add up within a `u64`, since they
/// are summed in one.
pub fn check_budget(cfg: &Config) -> (r: u128)
    requires
        configured_waits(*cfg) <= u64::MAX,
    ensures
        r == configured_waits(*cfg) + FIXED_OVERHEAD_MS,
{
    let (typing, element_waits) = waits(cfg);
    ((typing + cfg.settle_ms + element_waits) as u128) + (FIXED_OVERHEAD_MS as u128)
}

/// `check_budget`, or `None` where the configured waits do not add up within
/// a `u64` (a check that could never be timed).
pub fn checked_budget(cfg: &Config) -> (r: Option<u128>)
    ensures
        r is Some <==> configured_waits(*cfg) <= u64::MAX,
        r matches Some(b) ==> b == configured_waits(*cfg) + FIXED_OVERHEAD_MS,
{
    let (typing, element_waits) = waits(cfg);
    let total = (typing as u128) + (cfg.settle_ms as u128) + (element_waits as u128);
    if total <= (u64::MAX as u128) {
        Some(check_budget(cfg))
    } else {
        None
    }
}

/// How long to wait for the usage scraper's report: the element timeout plus
/// fixed overhead.
pub fn usage_timeout_ms(cfg: &Config) -> (r: u128)
    ensures
        r == cfg.element_timeout_ms + USAGE_FIXED_OVERHEAD_MS,
{
    (cfg.element_timeout_ms as u128) + (USAGE_FIXED_OVERHEAD_MS as u128)
}

// ------------------------------------------------------------------ usage

/// What a scraped usage payload resolves to. The login check wins over
/// "couldn't parse the percentages".
#[derive(Debug, PartialEq, Eq)]
pub enum ScrapeOutcome {
    /// The scraper found the login screen: a session expiry, not a scrape failure.
    LoggedOut,
    Done(Result<UsageSnapshot, String>),
}

/// Decides what a usage payload means, before any of its data is read when
/// the scraper saw a login screen.
pub fn interpret_usage_payload(payload: UsageProbePayload, now: i64) -> (r: ScrapeOutcome)
    requires
        valid_instant(now as int),
        !payload.logged_out ==> payload_safe(payload, now as int),
    ensures
        payload.logged_out ==> r == ScrapeOutcome::LoggedOut,
        !payload.logged_out ==> (r matches ScrapeOutcome::Done(res) && snapshot_of(
            payload,
            now as int,
            res,
        )),
{
    if payload.logged_out {
        return ScrapeOutcome::LoggedOut;
    }
    ScrapeOutcome::Done(payload.into_snapshot(now))
}

/// `interpret_usage_payload`, or `None` where a scraped reset text could not
/// be resolved within the range of the time types.
pub fn try_interpret_usage_payload(payload: UsageProbePayload, now: i64) -> (r: Option<
    ScrapeOutcome,
>)
    requires
        valid_instant(now as int),
    ensures
        r is None == (!payload.logged_out && !payload_safe(payload, now as int)),
        payload.logged_out ==> r == Some(ScrapeOutcome::LoggedOut),
        !payload.logged_out ==> (r matches Some(o) ==> o matches ScrapeOutcome::Done(res)
            && snapshot_of(payload, now as int, res)),
{
    if !payload.logged_out && !payload.is_safe_at(now) {
        None
    } else {
        Some(interpret_usage_payload(payload, now))
    }
}

// ------------------------------------------------------------------ tooltip

/// The status word of the tooltip.
pub open spec fn status_text(phase: Phase, verdict: Option<Verdict>) -> Seq<char> {
    if phase == Phase::Pinging {
        "checking…"@
    } else {
        match verdict {
            Some(Verdict::Unauthorized) => "session expired"@,
            Some(Verdict::Degraded) => "degraded"@,
            Some(Verdict::Unreachable) => "unreachable"@,
            Some(Verdict::Healthy) => "healthy"@,
            None => "idle"@,
        }
    }
}

pub open spec fn tooltip_text(phase: Phase, verdict: Option<Verdict>, countdown: Option<i64>) -> Seq<
    char,
> {
    match countdown {
        Some(secs) => "Pong — "@ + status_text(phase, verdict) + " · next in "@ + countdown_text(
            secs as int,
        ),
        None => "Pong — "@ + status_text(phase, verdict),
    }
}

/// Verdict-driven tray tooltip text.
pub fn tooltip_for(phase: Phase, verdict: Option<Verdict>, countdown: Option<i64>) -> (r: String)
    ensures
        r@ == tooltip_text(phase, verdict, countdown),
{
    let status = match phase {
        Phase::Pinging => "checking…",
        _ => match verdict {
            Some(Verdict::Unauthorized) => "session expired",
            Some(Verdict::Degraded) => "degraded",
            Some(Verdict::Unreachable) => "unreachable",
            Some(Verdict::Healthy) => "healthy",
            None => "idle",
        },
    };
    let mut out = String::from_str("Pong — ");
    out.append(status);
    match countdown {
        Some(secs) => {
            out.append(" · next in ");
            let c = format_countdown(secs);
            out.append(c.as_str());
        },
        None => {},
    }
    out
}

// ------------------------------------------------------------------ laws

/// A heartbeat that confirms sign-in would also let a scheduled check go on:
/// the confirmation is the stricter of the two tests.
pub proof fn lemma_confirmed_heartbeat_proceeds(heartbeat: Result<ProbePayload, ProbeError>)
    requires
        confirmed(heartbeat),
    ensures
        heartbeat_abort(heartbeat) is None,
{
}

/// The 2FA case: a 503 ("neither marker found") lets a scheduled check go
/// on, yet does not confirm sign-in.
pub proof fn lemma_neither_marker_proceeds_unconfirmed(p: ProbePayload)
    requires
        p.code == 503,
    ensures
        heartbeat_abort(Ok::<ProbePayload, ProbeError>(p)) is None,
        !confirmed(Ok::<ProbePayload, ProbeError>(p)),
{
}

/// A heartbeat that did not confirm sign-in never yields a healthy report.
pub proof fn lemma_unconfirmed_report_never_healthy(heartbeat: Result<ProbePayload, ProbeError>)
    requires
        !confirmed(heartbeat),
    ensures
        verdict_of(heartbeat_report(heartbeat).0) != Verdict::Healthy,
{
}

/// A login screen, a timeout or a failed evaluation always stops the check.
pub proof fn lemma_heartbeat_aborts(heartbeat: Result<ProbePayload, ProbeError>)
    requires
        heartbeat is Err || heartbeat->Ok_0.code == 401,
    ensures
        heartbeat_abort(heartbeat) is Some,
{
}

/// While a check runs the tooltip says so, whatever the last verdict was.
pub proof fn lemma_pinging_reads_checking(v: Option<Verdict>)
    ensures
        status_text(Phase::Pinging, v) == "checking…"@,
{
}

/// Each optional stage of a full check adds one full element wait to the
/// budget (short of saturation): a configured reply selector gives one more
/// pass than the same configuration without it.
pub proof fn lemma_reply_wait_counts_once(c: Config)
    requires
        c.selectors.response is Some,
    ensures
        wait_passes(c) == 1 + (if c.cleanup.menu_button is Some {
            1int
        } else {
            0
        }) + (if c.cleanup.delete_option is Some {
            1int
        } else {
            0
        }) + (if c.cleanup.confirm_button is Some {
            1int
        } else {
            0
        }) + 1,
{
}

/// Outside a running check the tooltip's status word names the last verdict
/// ("healthy", "session expired", "degraded", "unreachable", "idle" before
/// any check), and no two outcomes read alike.
pub proof fn lemma_status_word_names_the_verdict(phase: Phase, v: Option<Verdict>, w: Option<Verdict>)
    requires
        phase != Phase::Pinging,
    ensures
        v == Some(Verdict::Healthy) ==> status_text(phase, v) == "healthy"@,
        v == Some(Verdict::Unauthorized) ==> status_text(phase, v) == "session expired"@,
        v == Some(Verdict::Degraded) ==> status_text(phase, v) == "degraded"@,
        v == Some(Verdict::Unreachable) ==> status_text(phase, v) == "unreachable"@,
        v is None ==> status_text(phase, v) == "idle"@,
        v != w ==> status_text(phase, v) != status_text(phase, w),
{
    reveal_strlit("healthy");
    reveal_strlit("session expired");
    reveal_strlit("degraded");
    reveal_strlit("unreachable");
    reveal_strlit("idle");
    if v != w {
        // The five words start with five different letters.
        assert(status_text(phase, v)[0] != status_text(phase, w)[0]);
    }
}

} // verus!
