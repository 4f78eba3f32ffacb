//! Application configuration and its validation.
//!
//! The configuration says what to monitor (the target URL), when to monitor
//! it (a 6-field cron expression) and how to drive the page (CSS selectors).
//! Everything has a default, so a missing or `{}` file still boots.
use crate::scheduler::{cron_accepts, cron_error_text, parse_cron};
use crate::text::{blank, is_blank, same_text};
use vstd::prelude::*;

verus! {

/// Upper bound for the post-injection settle window.
pub const MAX_SETTLE_MS: u64 = 60_000;

/// Upper bound for the per-keystroke delay of the synthetic typist.
pub const MAX_TYPING_DELAY_MS: u64 = 2_000;

/// Upper bound for how long to wait on a single element.
pub const MAX_ELEMENT_TIMEOUT_MS: u64 = 120_000;

/// Errors produced while loading or validating a configuration.
#[derive(Debug, PartialEq, Eq)]
pub enum ConfigError {
    /// The file could not be read or written.
    Io(String),
    /// The file is not valid JSON for a configuration.
    Json(String),
    Cron { expr: String, reason: String },
    Url { url: String, reason: String },
    EmptySelector { field: String },
    OutOfRange { field: String, min: u64, max: u64, value: u64 },
}

/// A `ConfigError` with its texts taken as character sequences.
pub enum ConfigErrorView {
    Io(Seq<char>),
    Json(Seq<char>),
    Cron { expr: Seq<char>, reason: Seq<char> },
    Url { url: Seq<char>, reason: Seq<char> },
    EmptySelector { field: Seq<char> },
    OutOfRange { field: Seq<char>, min: u64, max: u64, value: u64 },
}

impl View for ConfigError {
    type V = ConfigErrorView;

    open spec fn view(&self) -> ConfigErrorView {
        match self {
            ConfigError::Io(m) => ConfigErrorView::Io(m@),
            ConfigError::Json(m) => ConfigErrorView::Json(m@),
            ConfigError::Cron { expr, reason } => ConfigErrorView::Cron {
                expr: expr@,
                reason: reason@,
            },
            ConfigError::Url { url, reason } => ConfigErrorView::Url { url: url@, reason: reason@ },
            ConfigError::EmptySelector { field } => ConfigErrorView::EmptySelector { field: field@ },
            ConfigError::OutOfRange { field, min, max, value } => ConfigErrorView::OutOfRange {
                field: field@,
                min: *min,
                max: *max,
                value: *value,
            },
        }
    }
}

/// How far a check goes once the session is confirmed alive.
#[derive(Clone, Copy, Debug, PartialEq, Eq, Structural)]
pub enum Interaction {
    /// Click, type the payload and press Enter: a true synthetic transaction.
    Full,
    /// Only inspect the page for the auth/login markers; nothing is clicked
    /// and nothing is typed.
    ProbeOnly,
}

impl Default for Interaction {
    fn default() -> (r: Self)
        ensures
            r == Interaction::Full,
    {
        Interaction::Full
    }
}

/// CSS selectors describing how to interact with the monitored dashboard.
#[derive(Debug, PartialEq, Eq)]
pub struct Selectors {
    /// Present only when the session is authenticated.
    pub authenticated: String,
    /// Present only when the dashboard bounced to a login screen.
    pub login_indicator: String,
    /// Optional button clicked before typing (e.g. "new conversation").
    pub action_button: Option<String>,
    /// The text input that receives the synthetic payload.
    pub text_input: String,
    /// Optional submit button, clicked instead of pressing Enter.
    pub submit_button: Option<String>,
    /// Optional selector matching each reply bubble.
    pub response: Option<String>,
}

/// Optional post-check teardown: each step runs only when its selector is set.
#[derive(Debug, PartialEq, Eq)]
pub struct Cleanup {
    /// Opens the menu that holds the delete option.
    pub menu_button: Option<String>,
    /// The delete/remove option.
    pub delete_option: Option<String>,
    /// Confirms the destructive action in a follow-up dialog.
    pub confirm_button: Option<String>,
}

/// The full application configuration.
#[derive(Debug, PartialEq, Eq)]
pub struct Config {
    /// Dashboard entry point loaded by the hidden webview.
    pub target_url: String,
    /// Six-field cron expression driving the health checks.
    pub cron: String,
    /// Whether the cron schedule actually runs.
    pub cron_enabled: bool,
    pub selectors: Selectors,
    /// Optional post-check teardown.
    pub cleanup: Cleanup,
    /// The string typed into `selectors.text_input` during a check.
    pub payload: String,
    /// How long to wait for the page to react after submitting.
    pub settle_ms: u64,
    /// How long to wait for an element to appear and become interactive.
    pub element_timeout_ms: u64,
    /// Delay between synthetic keystrokes.
    pub typing_delay_ms: u64,
    pub notifications_enabled: bool,
    /// Whether the app is registered to launch at login.
    pub autostart_enabled: bool,
    /// Whether a check drives the page or merely inspects it.
    pub interaction: Interaction,
    /// The usage-limits page, when the usage dashboard is opted into.
    pub usage_url: Option<String>,
}

pub open spec fn opt_seq(o: Option<String>) -> Option<Seq<char>> {
    match o {
        Some(s) => Some(s@),
        None => None,
    }
}

pub open spec fn default_target_url_text() -> Seq<char> {
    "https://github.com/login"@
}

pub open spec fn default_cron_text() -> Seq<char> {
    "0 0 5 * * Mon-Fri"@
}

pub open spec fn default_authenticated_text() -> Seq<char> {
    "meta[name=\"user-login\"]"@
}

pub open spec fn default_login_indicator_text() -> Seq<char> {
    "input[type=password]"@
}

pub open spec fn default_text_input_text() -> Seq<char> {
    "textarea, div[contenteditable=\"true\"]"@
}

pub open spec fn default_payload_text() -> Seq<char> {
    "ping"@
}

fn default_target_url() -> (r: String)
    ensures
        r@ == default_target_url_text(),
{
    String::from_str("https://github.com/login")
}

/// 5am, Monday through Friday. Six fields: sec min hour dom month dow.
fn default_cron() -> (r: String)
    ensures
        r@ == default_cron_text(),
{
    String::from_str("0 0 5 * * Mon-Fri")
}

fn default_authenticated() -> (r: String)
    ensures
        r@ == default_authenticated_text(),
{
    String::from_str("meta[name=\"user-login\"]")
}

fn default_login_indicator() -> (r: String)
    ensures
        r@ == default_login_indicator_text(),
{
    String::from_str("input[type=password]")
}

/// Matches a plain textarea and a rich editor alike.
fn default_text_input() -> (r: String)
    ensures
        r@ == default_text_input_text(),
{
    String::from_str("textarea, div[contenteditable=\"true\"]")
}

fn default_payload() -> (r: String)
    ensures
        r@ == default_payload_text(),
{
    String::from_str("ping")
}

fn default_settle_ms() -> (r: u64)
    ensures
        r == 3_000,
{
    3_000
}

fn default_element_timeout_ms() -> (r: u64)
    ensures
        r == 10_000,
{
    10_000
}

fn default_typing_delay_ms() -> (r: u64)
    ensures
        r == 60,
{
    60
}

fn default_true() -> (r: bool)
    ensures
        r,
{
    true
}

fn default_interaction() -> (r: Interaction)
    ensures
        r == Interaction::ProbeOnly,
{
    Interaction::ProbeOnly
}

impl Selectors {
    pub open spec fn is_default(&self) -> bool {
        &&& self.authenticated@ == default_authenticated_text()
        &&& self.login_indicator@ == default_login_indicator_text()
        &&& self.action_button is None
        &&& self.text_input@ == default_text_input_text()
        &&& self.submit_button is None
        &&& self.response is None
    }
}

impl Default for Selectors {
    fn default() -> (r: Self)
        ensures
            r.is_default(),
    {
        Selectors {
            authenticated: default_authenticated(),
            login_indicator: default_login_indicator(),
            action_button: None,
            text_input: default_text_input(),
            submit_button: None,
            response: None,
        }
    }
}

impl Default for Cleanup {
    fn default() -> (r: Self)
        ensures
            r.menu_button is None,
            r.delete_option is None,
            r.confirm_button is None,
    {
        Cleanup { menu_button: None, delete_option: None, confirm_button: None }
    }
}

impl Cleanup {
    pub open spec fn configured(&self) -> bool {
        self.menu_button is Some || self.delete_option is Some || self.confirm_button is Some
    }

    /// Whether any step is configured at all.
    pub fn is_configured(&self) -> (r: bool)
        ensures
            r == self.configured(),
    {
        self.menu_button.is_some() || self.delete_option.is_some() || self.confirm_button.is_some()
    }
}

impl Config {
    pub open spec fn is_default(&self) -> bool {
        &&& self.target_url@ == default_target_url_text()
        &&& self.cron@ == default_cron_text()
        &&& !self.cron_enabled
        &&& self.selectors.is_default()
        &&& !self.cleanup.configured()
        &&& self.payload@ == default_payload_text()
        &&& self.settle_ms == 3_000
        &&& self.element_timeout_ms == 10_000
        &&& self.typing_delay_ms == 60
        &&& self.notifications_enabled
        &&& self.autostart_enabled
        &&& self.interaction == Interaction::ProbeOnly
        &&& self.usage_url is None
    }
}

impl Default for Config {
    fn default() -> (r: Self)
        ensures
            r.is_default(),
    {
        Config {
            target_url: default_target_url(),
            cron: default_cron(),
            cron_enabled: false,
            selectors: Selectors::default(),
            cleanup: Cleanup::default(),
            payload: default_payload(),
            settle_ms: default_settle_ms(),
            element_timeout_ms: default_element_timeout_ms(),
            typing_delay_ms: default_typing_delay_ms(),
            notifications_enabled: default_true(),
            autostart_enabled: default_true(),
            interaction: default_interaction(),
            usage_url: None,
        }
    }
}

// ------------------------------------------------------------------ URLs

/// What `url::Url::parse` makes of `text`: the scheme and host of the parsed
/// URL, or the text of the parse error.
pub uninterp spec fn parsed_url(text: Seq<char>) -> Result<(Seq<char>, Option<Seq<char>>), Seq<char>>;

/// The parts of a parsed URL that the monitor reads.
#[derive(Debug, PartialEq, Eq)]
pub struct UrlParts {
    pub scheme: String,
    pub host: Option<String>,
}

/// `url::Url::parse`, keeping the scheme and the host (`Url::scheme`,
/// `Url::host_str`), or the error's text. The URL grammar is named, not
/// spelled out.
#[verifier::external_body]
pub(crate) fn parse_url(text: &str) -> (r: Result<UrlParts, String>)
    ensures
        match r {
            Ok(p) => parsed_url(text@) == Ok::<(Seq<char>, Option<Seq<char>>), Seq<char>>(
                (p.scheme@, opt_seq(p.host)),
            ),
            Err(e) => parsed_url(text@) == Err::<(Seq<char>, Option<Seq<char>>), Seq<char>>(e@),
        },
{
    match url::Url::parse(text) {
        Ok(u) => Ok(
            UrlParts { scheme: u.scheme().to_string(), host: u.host_str().map(|h| h.to_string()) },
        ),
        Err(e) => Err(e.to_string()),
    }
}

/// Why `url` is not acceptable as a page to load, if it is not: it must parse,
/// and its scheme must be http or https.
pub open spec fn url_problem(url: Seq<char>) -> Option<ConfigErrorView> {
    match parsed_url(url) {
        Err(reason) => Some(ConfigErrorView::Url { url, reason }),
        Ok((scheme, _)) => if scheme == "http"@ || scheme == "https"@ {
            None
        } else {
            Some(
                ConfigErrorView::Url {
                    url,
                    reason: "scheme `"@ + scheme + "` is not http/https"@,
                },
            )
        },
    }
}

fn check_url(url: &String) -> (r: Result<(), ConfigError>)
    ensures
        match r {
            Ok(()) => url_problem(url@) is None,
            Err(e) => url_problem(url@) == Some(e@),
        },
{
    match parse_url(url.as_str()) {
        Err(reason) => Err(ConfigError::Url { url: url.clone(), reason }),
        Ok(parts) => {
            if same_text(parts.scheme.as_str(), "http") || same_text(parts.scheme.as_str(), "https") {
                Ok(())
            } else {
                let mut reason = String::from_str("scheme `");
                reason.append(parts.scheme.as_str());
                reason.append("` is not http/https");
                Err(ConfigError::Url { url: url.clone(), reason })
            }
        },
    }
}

// ------------------------------------------------------------------ validation

/// The first optional selector, in the order checked, that is set but blank.
pub open spec fn blank_optional(c: Config) -> Option<Seq<char>> {
    if c.selectors.action_button matches Some(s) && blank(s@) {
        Some("action_button"@)
    } else if c.selectors.submit_button matches Some(s) && blank(s@) {
        Some("submit_button"@)
    } else if c.selectors.response matches Some(s) && blank(s@) {
        Some("response"@)
    } else if c.cleanup.menu_button matches Some(s) && blank(s@) {
        Some("cleanup.menu_button"@)
    } else if c.cleanup.delete_option matches Some(s) && blank(s@) {
        Some("cleanup.delete_option"@)
    } else if c.cleanup.confirm_button matches Some(s) && blank(s@) {
        Some("cleanup.confirm_button"@)
    } else {
        None
    }
}

pub open spec fn range_problem(field: Seq<char>, value: u64, min: u64, max: u64) -> Option<
    ConfigErrorView,
> {
    if value < min || value > max {
        Some(ConfigErrorView::OutOfRange { field, min, max, value })
    } else {
        None
    }
}

/// The first problem that validation reports for `c`, in the order checked:
/// the cron expression, the target URL, the usage URL, the required
/// selectors, the optional selectors, then the three time settings.
pub open spec fn validation_problem(c: Config) -> Option<ConfigErrorView> {
    if !cron_accepts(c.cron@) {
        Some(ConfigErrorView::Cron { expr: c.cron@, reason: cron_error_text() })
    } else if url_problem(c.target_url@) is Some {
        url_problem(c.target_url@)
    } else if c.usage_url matches Some(u) && url_problem(u@) is Some {
        url_problem(c.usage_url.unwrap()@)
    } else if blank(c.selectors.authenticated@) {
        Some(ConfigErrorView::EmptySelector { field: "authenticated"@ })
    } else if blank(c.selectors.login_indicator@) {
        Some(ConfigErrorView::EmptySelector { field: "login_indicator"@ })
    } else if blank(c.selectors.text_input@) {
        Some(ConfigErrorView::EmptySelector { field: "text_input"@ })
    } else if blank_optional(c) is Some {
        Some(ConfigErrorView::EmptySelector { field: blank_optional(c).unwrap() })
    } else if range_problem("settle_ms"@, c.settle_ms, 0, MAX_SETTLE_MS) is Some {
        range_problem("settle_ms"@, c.settle_ms, 0, MAX_SETTLE_MS)
    } else if range_problem("element_timeout_ms"@, c.element_timeout_ms, 0, MAX_ELEMENT_TIMEOUT_MS)
        is Some {
        range_problem("element_timeout_ms"@, c.element_timeout_ms, 0, MAX_ELEMENT_TIMEOUT_MS)
    } else {
        range_problem("typing_delay_ms"@, c.typing_delay_ms, 0, MAX_TYPING_DELAY_MS)
    }
}

pub open spec fn is_valid(c: Config) -> bool {
    validation_problem(c) is None
}

/// `Err` when `value` lies outside `min..=max`.
fn check_range(field: &str, value: u64, min: u64, max: u64) -> (r: Result<(), ConfigError>)
    ensures
        match r {
            Ok(()) => range_problem(field@, value, min, max) is None,
            Err(e) => range_problem(field@, value, min, max) == Some(e@),
        },
{
    if value < min || value > max {
        return Err(ConfigError::OutOfRange { field: String::from_str(field), min, max, value });
    }
    Ok(())
}

fn set_but_blank(value: &Option<String>) -> (r: bool)
    ensures
        r == (value matches Some(s) && blank(s@)),
{
    match value {
        Some(s) => is_blank(s.as_str()),
        None => false,
    }
}

impl Config {
    /// Validates the already-populated configuration; the error names the
    /// first problem found, in the order `validation_problem` lists.
    pub fn validate(&self) -> (r: Result<(), ConfigError>)
        ensures
            match r {
                Ok(()) => is_valid(*self),
                Err(e) => validation_problem(*self) == Some(e@),
            },
    {
        // The cron string must parse with the same crate the scheduler helpers use.
        match parse_cron(self.cron.as_str()) {
            Err(reason) => {
                return Err(ConfigError::Cron { expr: self.cron.clone(), reason });
            },
            Ok(_) => {},
        }
        check_url(&self.target_url)?;
        match &self.usage_url {
            Some(u) => {
                check_url(u)?;
            },
            None => {},
        }
        if is_blank(self.selectors.authenticated.as_str()) {
            return Err(ConfigError::EmptySelector { field: String::from_str("authenticated") });
        }
        if is_blank(self.selectors.login_indicator.as_str()) {
            return Err(ConfigError::EmptySelector { field: String::from_str("login_indicator") });
        }
        if is_blank(self.selectors.text_input.as_str()) {
            return Err(ConfigError::EmptySelector { field: String::from_str("text_input") });
        }
        if set_but_blank(&self.selectors.action_button) {
            return Err(ConfigError::EmptySelector { field: String::from_str("action_button") });
        }
        if set_but_blank(&self.selectors.submit_button) {
            return Err(ConfigError::EmptySelector { field: String::from_str("submit_button") });
        }
        if set_but_blank(&self.selectors.response) {
            return Err(ConfigError::EmptySelector { field: String::from_str("response") });
        }
        if set_but_blank(&self.cleanup.menu_button) {
            return Err(ConfigError::EmptySelector { field: String::from_str("cleanup.menu_button") });
        }
        if set_but_blank(&self.cleanup.delete_option) {
            return Err(
                ConfigError::EmptySelector { field: String::from_str("cleanup.delete_option") },
            );
        }
        if set_but_blank(&self.cleanup.confirm_button) {
            return Err(
                ConfigError::EmptySelector { field: String::from_str("cleanup.confirm_button") },
            );
        }
        check_range("settle_ms", self.settle_ms, 0, MAX_SETTLE_MS)?;
        check_range("element_timeout_ms", self.element_timeout_ms, 0, MAX_ELEMENT_TIMEOUT_MS)?;
        check_range("typing_delay_ms", self.typing_delay_ms, 0, MAX_TYPING_DELAY_MS)?;
        Ok(())
    }
}

// ------------------------------------------------------------------ copies

/// `Selectors` with its texts taken as character sequences.
pub struct SelectorsView {
    pub authenticated: Seq<char>,
    pub login_indicator: Seq<char>,
    pub action_button: Option<Seq<char>>,
    pub text_input: Seq<char>,
    pub submit_button: Option<Seq<char>>,
    pub response: Option<Seq<char>>,
}

impl View for Selectors {
    type V = SelectorsView;

    open spec fn view(&self) -> SelectorsView {
        SelectorsView {
            authenticated: self.authenticated@,
            login_indicator: self.login_indicator@,
            action_button: opt_seq(self.action_button),
            text_input: self.text_input@,
            submit_button: opt_seq(self.submit_button),
            response: opt_seq(self.response),
        }
    }
}

/// `Cleanup` with its texts taken as character sequences.
pub struct CleanupView {
    pub menu_button: Option<Seq<char>>,
    pub delete_option: Option<Seq<char>>,
    pub confirm_button: Option<Seq<char>>,
}

impl View for Cleanup {
    type V = CleanupView;

    open spec fn view(&self) -> CleanupView {
        CleanupView {
            menu_button: opt_seq(self.menu_button),
            delete_option: opt_seq(self.delete_option),
            confirm_button: opt_seq(self.confirm_button),
        }
    }
}

pub fn copy_opt_string(o: &Option<String>) -> (r: Option<String>)
    ensures
        opt_seq(r) == opt_seq(*o),
{
    match o {
        Some(s) => Some(s.clone()),
        None => None,
    }
}

impl Clone for Selectors {
    fn clone(&self) -> (r: Self)
        ensures
            r@ == self@,
    {
        Selectors {
            authenticated: self.authenticated.clone(),
            login_indicator: self.login_indicator.clone(),
            action_button: copy_opt_string(&self.action_button),
            text_input: self.text_input.clone(),
            submit_button: copy_opt_string(&self.submit_button),
            response: copy_opt_string(&self.response),
        }
    }
}

impl Clone for Cleanup {
    fn clone(&self) -> (r: Self)
        ensures
            r@ == self@,
    {
        Cleanup {
            menu_button: copy_opt_string(&self.menu_button),
            delete_option: copy_opt_string(&self.delete_option),
            confirm_button: copy_opt_string(&self.confirm_button),
        }
    }
}

impl Config {
    /// Whether `self` and `other` hold the same settings.
    pub open spec fn same_as(self, other: Config) -> bool {
        &&& self.target_url@ == other.target_url@
        &&& self.cron@ == other.cron@
        &&& self.cron_enabled == other.cron_enabled
        &&& self.selectors@ == other.selectors@
        &&& self.cleanup@ == other.cleanup@
        &&& self.payload@ == other.payload@
        &&& self.settle_ms == other.settle_ms
        &&& self.element_timeout_ms == other.element_timeout_ms
        &&& self.typing_delay_ms == other.typing_delay_ms
        &&& self.notifications_enabled == other.notifications_enabled
        &&& self.autostart_enabled == other.autostart_enabled
        &&& self.interaction == other.interaction
        &&& opt_seq(self.usage_url) == opt_seq(other.usage_url)
    }
}

impl Clone for Config {
    fn clone(&self) -> (r: Self)
        ensures
            r.same_as(*self),
    {
        Config {
            target_url: self.target_url.clone(),
            cron: self.cron.clone(),
            cron_enabled: self.cron_enabled,
            selectors: self.selectors.clone(),
            cleanup: self.cleanup.clone(),
            payload: self.payload.clone(),
            settle_ms: self.settle_ms,
            element_timeout_ms: self.element_timeout_ms,
            typing_delay_ms: self.typing_delay_ms,
            notifications_enabled: self.notifications_enabled,
            autostart_enabled: self.autostart_enabled,
            interaction: self.interaction,
            usage_url: copy_opt_string(&self.usage_url),
        }
    }
}

// ------------------------------------------------------------------ applying a change

/// What to do with the running cron job after a settings change.
#[derive(Clone, Copy, Debug, PartialEq, Eq, Structural)]
pub enum CronChange {
    /// Schedule and toggle are unchanged: leave the job alone.
    Keep,
    /// Install (or replace) the job with the new schedule.
    Install,
    /// Tear the job down; the schedule stays in the settings.
    Uninstall,
}

/// What applying a new configuration over the running one calls for.
#[derive(Debug, PartialEq, Eq)]
pub struct ConfigChange {
    /// Point the hidden webview at the new target.
    pub navigate: bool,
    pub cron: CronChange,
    /// Register (`Some(true)`) or unregister (`Some(false)`) launch at login.
    pub autostart: Option<bool>,
}

/// Plans the hot-apply of `next` over `previous`: navigate when the target
/// moved; reinstall or tear down the cron job when the schedule or its toggle
/// changed, by the new toggle; resync launch-at-login when it changed.
pub fn plan_config_change(previous: &Config, next: &Config) -> (r: ConfigChange)
    ensures
        r.navigate == (previous.target_url@ != next.target_url@),
        r.cron == cron_change(*previous, *next),
        r.autostart == (if previous.autostart_enabled != next.autostart_enabled {
            Some(next.autostart_enabled)
        } else {
            None
        }),
{
    let navigate = !same_text(previous.target_url.as_str(), next.target_url.as_str());
    let cron = if !same_text(previous.cron.as_str(), next.cron.as_str()) || previous.cron_enabled
        != next.cron_enabled {
        if next.cron_enabled {
            CronChange::Install
        } else {
            CronChange::Uninstall
        }
    } else {
        CronChange::Keep
    };
    let autostart = if previous.autostart_enabled != next.autostart_enabled {
        Some(next.autostart_enabled)
    } else {
        None
    };
    ConfigChange { navigate, cron, autostart }
}

/// How to reconcile the OS login-item registration with the setting.
#[derive(Clone, Copy, Debug, PartialEq, Eq, Structural)]
pub enum AutostartAction {
    Enable,
    Disable,
    Nothing,
}

/// Touches the registration only when it disagrees with the desired state,
/// so reconciling is idempotent and heals a registration removed by hand.
pub fn autostart_action(desired: bool, currently_enabled: bool) -> (r: AutostartAction)
    ensures
        r == autostart_plan(desired, currently_enabled),
{
    if desired && !currently_enabled {
        AutostartAction::Enable
    } else if !desired && currently_enabled {
        AutostartAction::Disable
    } else {
        AutostartAction::Nothing
    }
}

/// The reconciling action for a desired and a current registration.
pub open spec fn autostart_plan(desired: bool, currently_enabled: bool) -> AutostartAction {
    if desired && !currently_enabled {
        AutostartAction::Enable
    } else if !desired && currently_enabled {
        AutostartAction::Disable
    } else {
        AutostartAction::Nothing
    }
}

/// The registration once `action` has been carried out over `current`.
pub open spec fn registration_after(action: AutostartAction, current: bool) -> bool {
    match action {
        AutostartAction::Enable => true,
        AutostartAction::Disable => false,
        AutostartAction::Nothing => current,
    }
}

/// Reconciling is idempotent: once the action is carried out, the
/// registration matches the setting and reconciling again asks for nothing.
pub proof fn lemma_autostart_settles(desired: bool, current: bool)
    ensures
        registration_after(autostart_plan(desired, current), current) == desired,
        autostart_plan(desired, registration_after(autostart_plan(desired, current), current))
            == AutostartAction::Nothing,
{
}

/// The cron change planned for `previous` → `next`.
pub open spec fn cron_change(previous: Config, next: Config) -> CronChange {
    if previous.cron@ != next.cron@ || previous.cron_enabled != next.cron_enabled {
        if next.cron_enabled {
            CronChange::Install
        } else {
            CronChange::Uninstall
        }
    } else {
        CronChange::Keep
    }
}

/// Saving settings identical to the running ones touches nothing: no
/// navigation, no cron change, no autostart change.
pub proof fn lemma_unchanged_settings_plan_nothing(previous: Config, next: Config)
    requires
        previous.same_as(next),
    ensures
        !(previous.target_url@ != next.target_url@),
        cron_change(previous, next) == CronChange::Keep,
        !(previous.autostart_enabled != next.autostart_enabled),
{
}

/// Turning the schedule off always tears the job down; turning it on, or
/// changing the schedule while on, always (re)installs it.
pub proof fn lemma_cron_toggle_decides(previous: Config, next: Config)
    ensures
        previous.cron_enabled && !next.cron_enabled ==> cron_change(previous, next)
            == CronChange::Uninstall,
        next.cron_enabled && (previous.cron@ != next.cron@ || !previous.cron_enabled) ==> cron_change(
            previous,
            next,
        ) == CronChange::Install,
{
}
/// Whether `url` parses and names an http or https page.
pub open spec fn http_page(url: Seq<char>) -> bool {
    parsed_url(url) matches Ok((scheme, _)) && (scheme == "http"@ || scheme == "https"@)
}

/// A configuration is valid exactly when the cron expression is accepted,
/// the target URL (and the usage URL, when set) is an http(s) page, none of
/// the three required selectors is blank, no optional selector is set but
/// blank, and the settle, element and typing times are within their
/// ceilings.
pub proof fn lemma_valid_exactly_when(c: Config)
    ensures
        is_valid(c) <==> {
            &&& cron_accepts(c.cron@)
            &&& http_page(c.target_url@)
            &&& (c.usage_url matches Some(u) ==> http_page(u@))
            &&& !blank(c.selectors.authenticated@)
            &&& !blank(c.selectors.login_indicator@)
            &&& !blank(c.selectors.text_input@)
            &&& (c.selectors.action_button matches Some(s) ==> !blank(s@))
            &&& (c.selectors.submit_button matches Some(s) ==> !blank(s@))
            &&& (c.selectors.response matches Some(s) ==> !blank(s@))
            &&& (c.cleanup.menu_button matches Some(s) ==> !blank(s@))
            &&& (c.cleanup.delete_option matches Some(s) ==> !blank(s@))
            &&& (c.cleanup.confirm_button matches Some(s) ==> !blank(s@))
            &&& c.settle_ms <= 60_000
            &&& c.element_timeout_ms <= 120_000
            &&& c.typing_delay_ms <= 2_000
        },
{
}

/// A blank required selector is reported by name once the checks before it
/// (cron, URLs, and the required selectors listed before it) pass.
pub proof fn lemma_blank_required_selector_is_named(c: Config)
    requires
        cron_accepts(c.cron@),
        http_page(c.target_url@),
        c.usage_url matches Some(u) ==> http_page(u@),
    ensures
        blank(c.selectors.authenticated@) ==> validation_problem(c) == Some(
            ConfigErrorView::EmptySelector { field: "authenticated"@ },
        ),
        !blank(c.selectors.authenticated@) && blank(c.selectors.login_indicator@)
            ==> validation_problem(c) == Some(
            ConfigErrorView::EmptySelector { field: "login_indicator"@ },
        ),
        !blank(c.selectors.authenticated@) && !blank(c.selectors.login_indicator@) && blank(
            c.selectors.text_input@,
        ) ==> validation_problem(c) == Some(ConfigErrorView::EmptySelector { field: "text_input"@ }),
{
}

} // verus!
