//! Shared monitor state and the snapshot handed to the UI.
//!
//! The application keeps one `AppState` behind a lock; every operation here
//! is one critical section. `W` is what a waiting probe holds to receive its
//! report (a channel's sending half in the application).
use crate::config::Config;
use crate::health::{phase_after, HealthReport, HealthReportView, Phase, Verdict};
use crate::monitor::{busy_text, check_busy, should_notify, ScrapeOutcome};
use crate::scheduler::{next_occurrence, next_run, whole_seconds_until};
use crate::time::{now_ms, valid_instant, MAX_INSTANT_MS};
use crate::usage::{UsageLogEntry, UsageSnapshot};
use std::collections::HashMap;
use vstd::prelude::*;

verus! {

broadcast use vstd::std_specs::hash::group_hash_axioms;

/// How many past checks are kept: enough to see a pattern without growing
/// without bound in a process that runs for weeks.
pub const HISTORY_LIMIT: usize = 50;

/// Proof that a check holds the exclusive right to drive the webview; it is
/// handed back with `AppState::end_check` when the check is over.
#[derive(Debug)]
pub struct CheckGuard {
    held: (),
}

/// Everything the popover needs to render, in one message.
#[derive(Debug, PartialEq, Eq)]
pub struct MonitorSnapshot {
    pub phase: Phase,
    pub target_url: String,
    pub cron: String,
    /// Unix seconds of the next scheduled check, if the cron is valid.
    pub next_run_unix: Option<i64>,
    /// Seconds remaining until that run.
    pub seconds_until_next: Option<i64>,
    pub last_report: Option<HealthReport>,
    /// True after a 401, until a check succeeds again.
    pub needs_relogin: bool,
    /// Whether the dashboard window is currently on screen.
    pub dashboard_visible: bool,
}

/// What publishing a finished check asks of the application.
#[derive(Debug, PartialEq, Eq)]
pub struct FinishEffects {
    /// Show the "session expired" notification.
    pub notify: bool,
    /// Surface the popover with its recovery button.
    pub show_popover: bool,
}

/// Process-wide monitor state.
pub struct AppState<W> {
    config: Config,
    pub config_path: String,
    phase: Phase,
    last_report: Option<HealthReport>,
    needs_relogin: bool,
    /// Most recent checks, newest first.
    history: Vec<HealthReport>,
    nonce: u64,
    /// Probes waiting for their report, by nonce.
    pending: HashMap<u64, W>,
    /// Whether a check holds the webview.
    running: bool,
    usage: Option<UsageSnapshot>,
    /// Most recent usage checks, newest first.
    usage_history: Vec<UsageLogEntry>,
    /// Usage scrapes waiting for their report, by nonce.
    usage_pending: HashMap<u64, W>,
}

pub open spec fn report_views(s: Seq<HealthReport>) -> Seq<HealthReportView> {
    s.map_values(|r: HealthReport| r@)
}

pub open spec fn opt_report_view(o: Option<HealthReport>) -> Option<HealthReportView> {
    match o {
        Some(r) => Some(r@),
        None => None,
    }
}

/// `s`, cut to its first `HISTORY_LIMIT` entries.
pub open spec fn bounded<T>(s: Seq<T>) -> Seq<T> {
    if s.len() > HISTORY_LIMIT {
        s.take(HISTORY_LIMIT as int)
    } else {
        s
    }
}

/// The nonce handed out after `n`: the next one, wrapping around as an
/// atomic `fetch_add` does.
pub open spec fn nonce_after(n: u64) -> u64 {
    if n == u64::MAX {
        0
    } else {
        (n + 1) as u64
    }
}

/// The next run of `cron` as projected at `now`: none for a rejected
/// expression, or when `now` is within a second of the last instant.
pub open spec fn projected_run(cron: Seq<char>, now: i64) -> Option<i64> {
    if now + 1000 <= MAX_INSTANT_MS {
        next_run(cron, now)
    } else {
        None
    }
}

/// Whether the schedule fields of `s` show the run `next` from `now`: its
/// Unix second and the whole seconds left until it.
pub open spec fn projects(s: MonitorSnapshot, next: Option<i64>, now: i64) -> bool {
    &&& s.next_run_unix == (match next {
        Some(t) => Some((t / 1000) as i64),
        None => None,
    })
    &&& s.seconds_until_next == (match next {
        Some(t) => Some(whole_seconds_until(t as int, now as int) as i64),
        None => None,
    })
}

/// What recording a report with verdict `v` does to the relogin flag.
pub open spec fn relogin_after(v: Verdict) -> bool {
    v == Verdict::Unauthorized
}

impl<W> AppState<W> {
    pub closed spec fn config_of(&self) -> Config {
        self.config
    }

    pub closed spec fn config_path_of(&self) -> Seq<char> {
        self.config_path@
    }

    pub closed spec fn phase_of(&self) -> Phase {
        self.phase
    }

    pub closed spec fn relogin_flag(&self) -> bool {
        self.needs_relogin
    }

    pub closed spec fn history_of(&self) -> Seq<HealthReportView> {
        report_views(self.history@)
    }

    pub closed spec fn last_report_of(&self) -> Option<HealthReportView> {
        opt_report_view(self.last_report)
    }

    pub closed spec fn nonce_of(&self) -> u64 {
        self.nonce
    }

    pub closed spec fn pending_of(&self) -> Map<u64, W> {
        self.pending@
    }

    pub closed spec fn running_of(&self) -> bool {
        self.running
    }

    pub closed spec fn usage_of(&self) -> Option<UsageSnapshot> {
        self.usage
    }

    pub closed spec fn usage_history_of(&self) -> Seq<UsageLogEntry> {
        self.usage_history@
    }

    pub closed spec fn usage_pending_of(&self) -> Map<u64, W> {
        self.usage_pending@
    }

    /// The history is bounded, and the last report is the newest entry of it.
    pub closed spec fn wf(&self) -> bool {
        &&& self.history@.len() <= HISTORY_LIMIT
        &&& self.usage_history@.len() <= HISTORY_LIMIT
        &&& self.last_report_of() == (if self.history@.len() == 0 {
            None
        } else {
            Some(self.history@[0]@)
        })
    }

    /// The checks' record is as in `old`: phase, relogin flag, history and
    /// last report.
    pub open spec fn same_checks(&self, old: &Self) -> bool {
        &&& self.phase_of() == old.phase_of()
        &&& self.relogin_flag() == old.relogin_flag()
        &&& self.history_of() == old.history_of()
        &&& self.last_report_of() == old.last_report_of()
    }

    /// The settings are as in `old`: the configuration and its file path.
    pub open spec fn same_settings(&self, old: &Self) -> bool {
        &&& self.config_of().same_as(old.config_of())
        &&& self.config_path_of() == old.config_path_of()
    }

    /// The waiting side is as in `old`: the nonce counter, the probes and
    /// scrapes waiting for reports, and the check slot.
    pub open spec fn same_waiting(&self, old: &Self) -> bool {
        &&& self.nonce_of() == old.nonce_of()
        &&& self.pending_of() == old.pending_of()
        &&& self.running_of() == old.running_of()
        &&& self.usage_pending_of() == old.usage_pending_of()
    }

    /// The usage side is as in `old`: the last usage snapshot and its history.
    pub open spec fn same_usage(&self, old: &Self) -> bool {
        &&& self.usage_of() == old.usage_of()
        &&& self.usage_history_of() == old.usage_history_of()
    }

    pub fn new(config: Config, config_path: String) -> (r: Self)
        ensures
            r.wf(),
            r.config_of() == config,
            r.config_path_of() == config_path@,
            r.phase_of() == Phase::Ready,
            !r.relogin_flag(),
            r.history_of().len() == 0,
            r.last_report_of() is None,
            r.nonce_of() == 1,
            r.pending_of() == Map::<u64, W>::empty(),
            !r.running_of(),
            r.usage_of() is None,
            r.usage_history_of().len() == 0,
            r.usage_pending_of() == Map::<u64, W>::empty(),
    {
        let r = AppState {
            config,
            config_path,
            phase: Phase::Ready,
            last_report: None,
            needs_relogin: false,
            history: Vec::new(),
            nonce: 1,
            pending: HashMap::new(),
            running: false,
            usage: None,
            usage_history: Vec::new(),
            usage_pending: HashMap::new(),
        };
        assert(r.history_of() =~= Seq::empty());
        r
    }

    /// Claims the right to run a check, or `None` if one is already in flight:
    /// a cron tick and a manual check must not type into the page together.
    pub fn try_begin_check(&mut self) -> (r: Option<CheckGuard>)
        requires
            old(self).wf(),
        ensures
            final(self).wf(),
            r is Some == !old(self).running_of(),
            final(self).running_of(),
            final(self).same_checks(old(self)),
            final(self).same_settings(old(self)),
            final(self).same_usage(old(self)),
            final(self).nonce_of() == old(self).nonce_of(),
            final(self).pending_of() == old(self).pending_of(),
            final(self).usage_pending_of() == old(self).usage_pending_of(),
    {
        if self.running {
            None
        } else {
            self.running = true;
            Some(CheckGuard { held: () })
        }
    }

    /// Claims the check slot for a request that cannot wait, or answers that
    /// a check is running.
    pub fn claim_check(&mut self) -> (r: Result<CheckGuard, String>)
        requires
            old(self).wf(),
        ensures
            final(self).wf(),
            r is Ok == !old(self).running_of(),
            r matches Err(e) ==> e@ == busy_text(),
            final(self).running_of(),
            final(self).same_checks(old(self)),
            final(self).same_settings(old(self)),
            final(self).same_usage(old(self)),
            final(self).nonce_of() == old(self).nonce_of(),
            final(self).pending_of() == old(self).pending_of(),
            final(self).usage_pending_of() == old(self).usage_pending_of(),
    {
        match self.try_begin_check() {
            Some(guard) => Ok(guard),
            None => Err(check_busy()),
        }
    }

    /// Starts a health check: claims the slot and shows the check as running.
    /// When another check holds the slot nothing changes.
    pub fn begin_health_check(&mut self) -> (r: Option<CheckGuard>)
        requires
            old(self).wf(),
        ensures
            final(self).wf(),
            r is Some == !old(self).running_of(),
            final(self).running_of(),
            r is Some ==> final(self).phase_of() == Phase::Pinging,
            r is None ==> final(self).phase_of() == old(self).phase_of(),
            final(self).relogin_flag() == old(self).relogin_flag(),
            final(self).history_of() == old(self).history_of(),
            final(self).last_report_of() == old(self).last_report_of(),
            final(self).same_settings(old(self)),
            final(self).same_usage(old(self)),
            final(self).nonce_of() == old(self).nonce_of(),
            final(self).pending_of() == old(self).pending_of(),
            final(self).usage_pending_of() == old(self).usage_pending_of(),
    {
        let guard = self.try_begin_check();
        if guard.is_some() {
            self.set_phase(Phase::Pinging);
        }
        guard
    }

    /// Releases the right claimed by `try_begin_check`.
    pub fn end_check(&mut self, guard: CheckGuard)
        requires
            old(self).wf(),
        ensures
            final(self).wf(),
            !final(self).running_of(),
            final(self).same_checks(old(self)),
            final(self).same_settings(old(self)),
            final(self).same_usage(old(self)),
            final(self).nonce_of() == old(self).nonce_of(),
            final(self).pending_of() == old(self).pending_of(),
            final(self).usage_pending_of() == old(self).usage_pending_of(),
    {
        let CheckGuard { held: _ } = guard;
        self.running = false;
    }

    /// Allocates a fresh correlation id for a probe; the counter wraps around
    /// as an atomic `fetch_add` does.
    pub fn next_nonce(&mut self) -> (r: u64)
        requires
            old(self).wf(),
        ensures
            final(self).wf(),
            r == old(self).nonce_of(),
            final(self).nonce_of() == nonce_after(r),
            final(self).same_checks(old(self)),
            final(self).same_settings(old(self)),
            final(self).same_usage(old(self)),
            final(self).pending_of() == old(self).pending_of(),
            final(self).usage_pending_of() == old(self).usage_pending_of(),
            final(self).running_of() == old(self).running_of(),
    {
        let r = self.nonce;
        self.nonce = if r == u64::MAX {
            0
        } else {
            r + 1
        };
        r
    }

    pub fn phase(&self) -> (r: Phase)
        ensures
            r == self.phase_of(),
    {
        self.phase
    }

    pub fn set_phase(&mut self, phase: Phase)
        requires
            old(self).wf(),
        ensures
            final(self).wf(),
            final(self).phase_of() == phase,
            final(self).relogin_flag() == old(self).relogin_flag(),
            final(self).history_of() == old(self).history_of(),
            final(self).last_report_of() == old(self).last_report_of(),
            final(self).same_settings(old(self)),
            final(self).same_waiting(old(self)),
            final(self).same_usage(old(self)),
    {
        self.phase = phase;
    }

    pub fn config_snapshot(&self) -> (r: Config)
        ensures
            r.same_as(self.config_of()),
    {
        self.config.clone()
    }

    /// Replaces the live configuration.
    pub fn set_config(&mut self, config: Config)
        requires
            old(self).wf(),
        ensures
            final(self).wf(),
            final(self).config_of() == config,
            final(self).config_path_of() == old(self).config_path_of(),
            final(self).same_checks(old(self)),
            final(self).same_waiting(old(self)),
            final(self).same_usage(old(self)),
    {
        self.config = config;
    }

    /// Records a finished check: the relogin flag and the phase follow its
    /// verdict, and it leads the bounded, newest-first history.
    pub fn record_report(&mut self, report: HealthReport)
        requires
            old(self).wf(),
        ensures
            final(self).wf(),
            final(self).relogin_flag() == relogin_after(report.verdict),
            final(self).phase_of() == phase_after(report.verdict),
            final(self).history_of() == bounded(seq![report@] + old(self).history_of()),
            final(self).last_report_of() == Some(report@),
            final(self).same_settings(old(self)),
            final(self).same_waiting(old(self)),
            final(self).same_usage(old(self)),
    {
        self.needs_relogin = report.verdict.needs_relogin();
        self.phase = report.phase();
        let mut history: Vec<HealthReport> = Vec::new();
        std::mem::swap(&mut history, &mut self.history);
        let ghost before = history@;
        history.insert(0, report.clone());
        assert(report_views(history@) =~= seq![report@] + report_views(before));
        // Bounded: this process is expected to run for weeks.
        while history.len() > HISTORY_LIMIT
            invariant
                report_views(history@) =~= (seq![report@] + report_views(before)).take(
                    history@.len() as int,
                ),
                history@.len() >= (if before.len() + 1 > HISTORY_LIMIT {
                    HISTORY_LIMIT as int
                } else {
                    before.len() + 1int
                }),
                history@.len() <= before.len() + 1,
                before.len() <= HISTORY_LIMIT,
            decreases history@.len(),
        {
            history.pop();
        }
        self.history = history;
        self.last_report = Some(report);
        assert(self.history@.len() == (if before.len() + 1 > HISTORY_LIMIT {
            HISTORY_LIMIT as int
        } else {
            before.len() + 1int
        }));
        assert(report_views(self.history@) =~= bounded(seq![report@] + report_views(before)));
        assert(self.history@[0]@ == report_views(self.history@)[0]);
    }

    /// Past checks, newest first.
    pub fn history(&self) -> (r: Vec<HealthReport>)
        ensures
            report_views(r@) == self.history_of(),
    {
        let mut out: Vec<HealthReport> = Vec::new();
        let mut i: usize = 0;
        while i < self.history.len()
            invariant
                0 <= i <= self.history@.len(),
                report_views(out@) =~= report_views(self.history@).take(i as int),
            decreases self.history@.len() - i,
        {
            let copy = self.history[i].clone();
            let ghost prev = out@;
            out.push(copy);
            assert(report_views(out@) =~= report_views(prev).push(copy@));
            assert(report_views(self.history@).take(i + 1) =~= report_views(self.history@).take(
                i as int,
            ).push(self.history@[i as int]@));
            i = i + 1;
        }
        assert(report_views(self.history@).take(self.history@.len() as int) =~= report_views(
            self.history@,
        ));
        out
    }

    pub fn needs_relogin(&self) -> (r: bool)
        ensures
            r == self.relogin_flag(),
    {
        self.needs_relogin
    }

    pub fn clear_relogin(&mut self)
        requires
            old(self).wf(),
        ensures
            final(self).wf(),
            !final(self).relogin_flag(),
            final(self).phase_of() == old(self).phase_of(),
            final(self).history_of() == old(self).history_of(),
            final(self).last_report_of() == old(self).last_report_of(),
            final(self).same_settings(old(self)),
            final(self).same_waiting(old(self)),
            final(self).same_usage(old(self)),
    {
        self.needs_relogin = false;
    }

    /// Registers interest in the report for `nonce`; `waiter` receives it.
    pub fn expect_report(&mut self, nonce: u64, waiter: W)
        requires
            old(self).wf(),
        ensures
            final(self).wf(),
            final(self).pending_of() == old(self).pending_of().insert(nonce, waiter),
            final(self).same_checks(old(self)),
            final(self).same_settings(old(self)),
            final(self).same_usage(old(self)),
            final(self).nonce_of() == old(self).nonce_of(),
            final(self).running_of() == old(self).running_of(),
            final(self).usage_pending_of() == old(self).usage_pending_of(),
    {
        self.pending.insert(nonce, waiter);
    }

    /// Takes the waiter registered for a report's nonce, to hand it the
    /// report; `None` for stale or unknown nonces, whose reports are dropped.
    pub fn resolve_report(&mut self, nonce: u64) -> (r: Option<W>)
        requires
            old(self).wf(),
        ensures
            final(self).wf(),
            match r {
                Some(w) => old(self).pending_of().contains_key(nonce) && w == old(
                    self,
                ).pending_of()[nonce],
                None => !old(self).pending_of().contains_key(nonce),
            },
            final(self).pending_of() == old(self).pending_of().remove(nonce),
            final(self).same_checks(old(self)),
            final(self).same_settings(old(self)),
            final(self).same_usage(old(self)),
            final(self).nonce_of() == old(self).nonce_of(),
            final(self).running_of() == old(self).running_of(),
            final(self).usage_pending_of() == old(self).usage_pending_of(),
    {
        self.pending.remove(&nonce)
    }

    /// Stops waiting for `nonce` (used when a probe times out).
    pub fn forget_report(&mut self, nonce: u64)
        requires
            old(self).wf(),
        ensures
            final(self).wf(),
            final(self).pending_of() == old(self).pending_of().remove(nonce),
            final(self).same_checks(old(self)),
            final(self).same_settings(old(self)),
            final(self).same_usage(old(self)),
            final(self).nonce_of() == old(self).nonce_of(),
            final(self).running_of() == old(self).running_of(),
            final(self).usage_pending_of() == old(self).usage_pending_of(),
    {
        self.pending.remove(&nonce);
    }

    /// Registers interest in the usage report for `nonce`.
    pub fn expect_usage_report(&mut self, nonce: u64, waiter: W)
        requires
            old(self).wf(),
        ensures
            final(self).wf(),
            final(self).usage_pending_of() == old(self).usage_pending_of().insert(nonce, waiter),
            final(self).pending_of() == old(self).pending_of(),
            final(self).same_checks(old(self)),
            final(self).same_settings(old(self)),
            final(self).same_usage(old(self)),
            final(self).nonce_of() == old(self).nonce_of(),
            final(self).running_of() == old(self).running_of(),
    {
        self.usage_pending.insert(nonce, waiter);
    }

    /// Takes the waiter registered for a usage report's nonce.
    pub fn resolve_usage_report(&mut self, nonce: u64) -> (r: Option<W>)
        requires
            old(self).wf(),
        ensures
            final(self).wf(),
            match r {
                Some(w) => old(self).usage_pending_of().contains_key(nonce) && w == old(
                    self,
                ).usage_pending_of()[nonce],
                None => !old(self).usage_pending_of().contains_key(nonce),
            },
            final(self).usage_pending_of() == old(self).usage_pending_of().remove(nonce),
            final(self).pending_of() == old(self).pending_of(),
            final(self).same_checks(old(self)),
            final(self).same_settings(old(self)),
            final(self).same_usage(old(self)),
            final(self).nonce_of() == old(self).nonce_of(),
            final(self).running_of() == old(self).running_of(),
    {
        self.usage_pending.remove(&nonce)
    }

    /// Stops waiting for the usage report for `nonce`.
    pub fn forget_usage_report(&mut self, nonce: u64)
        requires
            old(self).wf(),
        ensures
            final(self).wf(),
            final(self).usage_pending_of() == old(self).usage_pending_of().remove(nonce),
            final(self).pending_of() == old(self).pending_of(),
            final(self).same_checks(old(self)),
            final(self).same_settings(old(self)),
            final(self).same_usage(old(self)),
            final(self).nonce_of() == old(self).nonce_of(),
            final(self).running_of() == old(self).running_of(),
    {
        self.usage_pending.remove(&nonce);
    }

    /// Publishes a finished check: records it, and asks for the notification
    /// (when enabled) and the recovery popover only on the transition into
    /// the unauthorized state, so a dashboard left logged out does not nag on
    /// every tick.
    pub fn finish(&mut self, report: HealthReport) -> (r: FinishEffects)
        requires
            old(self).wf(),
        ensures
            final(self).wf(),
            r.show_popover == (relogin_after(report.verdict) && !old(self).relogin_flag()),
            r.notify == finish_notifies(
                old(self).relogin_flag(),
                report.verdict,
                old(self).config_of().notifications_enabled,
            ),
            final(self).relogin_flag() == relogin_after(report.verdict),
            final(self).phase_of() == phase_after(report.verdict),
            final(self).history_of() == bounded(seq![report@] + old(self).history_of()),
            final(self).last_report_of() == Some(report@),
            final(self).same_settings(old(self)),
            final(self).same_waiting(old(self)),
            final(self).same_usage(old(self)),
    {
        let needs_relogin = report.verdict.needs_relogin();
        let enabled = self.config.notifications_enabled;
        let was_already_flagged = self.needs_relogin;
        self.record_report(report);
        let transition = needs_relogin && !was_already_flagged;
        FinishEffects {
            notify: transition && should_notify(needs_relogin, was_already_flagged, enabled),
            show_popover: transition,
        }
    }

    /// Publishes a usage scrape made at `at`: a scrape that found the login
    /// screen is recorded as a "session expired" usage error and published
    /// as a 401 health report, as an expired session seen by a health check
    /// is, returning what that asks of the application; any other outcome is
    /// only recorded.
    pub fn record_usage_outcome(&mut self, outcome: ScrapeOutcome, latency_ms: u64, at: i64) -> (r:
        Option<FinishEffects>)
        requires
            old(self).wf(),
        ensures
            final(self).wf(),
            (r is Some) == (outcome == ScrapeOutcome::LoggedOut),
            final(self).usage_history_of().len() == (if old(self).usage_history_of().len() + 1
                > HISTORY_LIMIT {
                HISTORY_LIMIT as int
            } else {
                old(self).usage_history_of().len() + 1int
            }),
            final(self).usage_history_of()[0].latency_ms == latency_ms,
            final(self).usage_history_of()[0].at == at,
            forall|i: int|
                1 <= i < final(self).usage_history_of().len() ==> final(self).usage_history_of()[i]
                    == old(self).usage_history_of()[i - 1],
            final(self).same_settings(old(self)),
            final(self).same_waiting(old(self)),
            match outcome {
                ScrapeOutcome::LoggedOut => {
                    &&& !final(self).usage_history_of()[0].ok
                    &&& final(self).usage_history_of()[0].detail@ == "session expired"@
                    &&& final(self).usage_of() == old(self).usage_of()
                    &&& r matches Some(e) && e.show_popover == !old(self).relogin_flag()
                        && e.notify == finish_notifies(
                        old(self).relogin_flag(),
                        Verdict::Unauthorized,
                        old(self).config_of().notifications_enabled,
                    )
                    &&& final(self).relogin_flag()
                    &&& final(self).phase_of() == Phase::Error
                    &&& final(self).last_report_of() matches Some(rep) && rep.code == 401
                        && rep.verdict == Verdict::Unauthorized && rep.detail
                        == "session expired (seen during usage check)"@ && rep.latency_ms
                        == latency_ms
                    &&& final(self).history_of() == bounded(
                        seq![final(self).last_report_of()->Some_0] + old(self).history_of(),
                    )
                },
                ScrapeOutcome::Done(result) => {
                    &&& final(self).usage_history_of()[0].ok == result is Ok
                    &&& result matches Err(reason) ==> final(self).usage_history_of()[0].detail@
                        == reason@
                    &&& result is Ok ==> final(self).usage_history_of()[0].detail@
                        == "usage updated"@
                    &&& result matches Ok(snap) ==> final(self).usage_of() == Some(snap)
                    &&& result is Err ==> final(self).usage_of() == old(self).usage_of()
                    &&& final(self).same_checks(old(self))
                },
            },
    {
        match outcome {
            ScrapeOutcome::LoggedOut => {
                self.record_usage_result(Err(String::from_str("session expired")), latency_ms, at);
                let report = HealthReport::new(
                    401,
                    String::from_str("session expired (seen during usage check)"),
                    latency_ms,
                );
                Some(self.finish(report))
            },
            ScrapeOutcome::Done(result) => {
                self.record_usage_result(result, latency_ms, at);
                None
            },
        }
    }

    fn last_report_copy(&self) -> (r: Option<HealthReport>)
        ensures
            opt_report_view(r) == self.last_report_of(),
    {
        match &self.last_report {
            Some(rep) => Some(rep.clone()),
            None => None,
        }
    }

    /// The snapshot at `now` when the next scheduled check is `next`.
    pub fn snapshot_at(&self, now: i64, next: Option<i64>) -> (r: MonitorSnapshot)
        requires
            valid_instant(now as int),
            next matches Some(t) ==> valid_instant(t as int) && 0 <= t,
        ensures
            r.phase == self.phase_of(),
            r.target_url@ == self.config_of().target_url@,
            r.cron@ == self.config_of().cron@,
            r.next_run_unix == (match next {
                Some(t) => Some((t / 1000) as i64),
                None => None,
            }),
            r.seconds_until_next == (match next {
                Some(t) => Some(whole_seconds_until(t as int, now as int) as i64),
                None => None,
            }),
            opt_report_view(r.last_report) == self.last_report_of(),
            r.needs_relogin == self.relogin_flag(),
            !r.dashboard_visible,
    {
        let cfg = self.config_snapshot();
        let (next_run_unix, seconds_until_next) = match next {
            Some(t) => (
                Some(t / 1000),
                Some(crate::scheduler::seconds_between(t, now)),
            ),
            None => (None, None),
        };
        MonitorSnapshot {
            phase: self.phase,
            target_url: cfg.target_url,
            cron: cfg.cron,
            next_run_unix,
            seconds_until_next,
            last_report: self.last_report_copy(),
            needs_relogin: self.needs_relogin,
            // Filled in by the caller that knows about windows.
            dashboard_visible: false,
        }
    }

    /// The snapshot now, with the schedule projected from the configured cron.
    pub fn snapshot(&self) -> (r: MonitorSnapshot)
        ensures
            r.phase == self.phase_of(),
            r.target_url@ == self.config_of().target_url@,
            r.cron@ == self.config_of().cron@,
            opt_report_view(r.last_report) == self.last_report_of(),
            r.needs_relogin == self.relogin_flag(),
            r.seconds_until_next matches Some(s) ==> s >= 0,
            exists|now: i64|
                #![trigger projected_run(self.config_of().cron@, now)]
                valid_instant(now as int) && projects(r, projected_run(self.config_of().cron@, now), now),
            !r.dashboard_visible,
    {
        let now = now_ms();
        let next = if now <= MAX_INSTANT_MS - 1000 {
            next_occurrence(self.config.cron.as_str(), now)
        } else {
            None
        };
        let r = self.snapshot_at(now, next);
        assert(projects(r, projected_run(self.config_of().cron@, now), now));
        r
    }

    /// The most recent usage snapshot, if any scrape succeeded.
    pub fn usage_snapshot(&self) -> (r: &Option<UsageSnapshot>)
        ensures
            *r == self.usage_of(),
    {
        &self.usage
    }

    /// Past usage checks, newest first.
    pub fn usage_history(&self) -> (r: &Vec<UsageLogEntry>)
        ensures
            r@ == self.usage_history_of(),
    {
        &self.usage_history
    }

    /// Records a usage check made at `at`: a successful one replaces the
    /// usage snapshot; either way it leads the bounded, newest-first usage
    /// history.
    pub fn record_usage_result(&mut self, result: Result<UsageSnapshot, String>, latency_ms: u64, at: i64)
        requires
            old(self).wf(),
        ensures
            final(self).wf(),
            final(self).usage_history_of().len() == (if old(self).usage_history_of().len() + 1
                > HISTORY_LIMIT {
                HISTORY_LIMIT as int
            } else {
                old(self).usage_history_of().len() + 1int
            }),
            final(self).usage_history_of()[0].ok == result is Ok,
            final(self).usage_history_of()[0].latency_ms == latency_ms,
            final(self).usage_history_of()[0].at == at,
            result matches Err(reason) ==> final(self).usage_history_of()[0].detail@ == reason@,
            result is Ok ==> final(self).usage_history_of()[0].detail@ == "usage updated"@,
            result matches Ok(s) ==> final(self).usage_of() == Some(s),
            result is Err ==> final(self).usage_of() == old(self).usage_of(),
            forall|i: int|
                1 <= i < final(self).usage_history_of().len() ==> final(self).usage_history_of()[i]
                    == old(self).usage_history_of()[i - 1],
            final(self).same_checks(old(self)),
            final(self).same_settings(old(self)),
            final(self).same_waiting(old(self)),
    {
        let entry = match &result {
            Ok(_) => UsageLogEntry {
                ok: true,
                detail: String::from_str("usage updated"),
                latency_ms,
                at,
            },
            Err(reason) => UsageLogEntry { ok: false, detail: reason.clone(), latency_ms, at },
        };
        let mut history: Vec<UsageLogEntry> = Vec::new();
        std::mem::swap(&mut history, &mut self.usage_history);
        let ghost before = history@;
        history.insert(0, entry);
        while history.len() > HISTORY_LIMIT
            invariant
                history@ =~= before.insert(0, entry).take(history@.len() as int),
                history@.len() >= (if before.len() + 1 > HISTORY_LIMIT {
                    HISTORY_LIMIT as int
                } else {
                    before.len() + 1int
                }),
                history@.len() <= before.len() + 1,
                before.len() <= HISTORY_LIMIT,
            decreases history@.len(),
        {
            history.pop();
        }
        self.usage_history = history;
        match result {
            Ok(s) => {
                self.usage = Some(s);
            },
            Err(_) => {},
        }
    }
}

// ------------------------------------------------------------------ laws

/// Whether publishing a report with verdict `v` notifies, given the relogin
/// flag before it and the notification setting.
pub open spec fn finish_notifies(flag_before: bool, v: Verdict, enabled: bool) -> bool {
    relogin_after(v) && !flag_before && enabled
}

/// A dashboard left logged out does not nag: after an unauthorized report has
/// been published, publishing another one does not notify again; after a
/// report of any other verdict, the next unauthorized one notifies again
/// (when enabled).
pub proof fn lemma_notifies_only_on_transition(v: Verdict, enabled: bool)
    ensures
        !finish_notifies(relogin_after(Verdict::Unauthorized), Verdict::Unauthorized, enabled),
        v != Verdict::Unauthorized ==> finish_notifies(relogin_after(v), Verdict::Unauthorized, enabled)
            == enabled,
{
}

/// Recording keeps the newest report first and the history bounded; the
/// entries dropped are the oldest ones.
pub proof fn lemma_history_keeps_newest<T>(history: Seq<T>, newest: T)
    requires
        history.len() <= HISTORY_LIMIT,
    ensures
        bounded(seq![newest] + history).len() <= HISTORY_LIMIT,
        bounded(seq![newest] + history)[0] == newest,
        forall|i: int|
            1 <= i < bounded(seq![newest] + history).len() ==> #[trigger] bounded(
                seq![newest] + history,
            )[i] == history[i - 1],
{
}

/// A forgotten or never-registered nonce has nobody waiting for it.
pub proof fn lemma_forgotten_nonce_not_delivered<W>(pending: Map<u64, W>, nonce: u64)
    ensures
        !pending.remove(nonce).contains_key(nonce),
{
}

/// Nonces are unique and increasing: each one handed out differs from the
/// one before it and, short of wrapping around at `u64::MAX`, exceeds it, so
/// `k` nonces in a row from `n` are `n`, `n + 1`, ..., `n + k - 1`.
pub proof fn lemma_nonces_advance(n: u64, k: nat)
    requires
        n + k <= u64::MAX,
    ensures
        nonce_after(n) != n,
        n < u64::MAX ==> nonce_after(n) == n + 1,
        nonces_from(n, k) == Seq::new(k, |i: int| (n + i) as u64),
    decreases k,
{
    if k > 0 {
        lemma_nonces_advance(nonce_after(n), (k - 1) as nat);
        assert(nonces_from(n, k) =~= Seq::new(k, |i: int| (n + i) as u64));
    }
}

/// The `k` nonces handed out in a row starting at `n`.
pub open spec fn nonces_from(n: u64, k: nat) -> Seq<u64>
    decreases k,
{
    if k == 0 {
        Seq::empty()
    } else {
        seq![n] + nonces_from(nonce_after(n), (k - 1) as nat)
    }
}

} // verus!
