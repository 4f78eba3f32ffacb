//! Builds the JavaScript evaluated inside the hidden webview.
//!
//! All user-controlled values (selectors, payload) cross into JS inside a
//! single JSON object literal, each text escaped by `serde_json`, so escaping
//! is not hand-rolled string concatenation.
use crate::config::{opt_seq, parse_url, parsed_url, Cleanup, Config, Selectors};
use crate::text::{decimal, has_substring, occurs_at, push_decimal};
use vstd::prelude::*;

verus! {

/// Parameters handed to the agent for a single check.
#[derive(Debug, PartialEq, Eq)]
pub struct InjectionParams {
    /// Host of the configured target. The agent refuses to act anywhere else.
    pub expected_host: String,
    pub selectors: Selectors,
    /// Optional post-check teardown, run only after a successful interaction.
    pub cleanup: Cleanup,
    pub payload: String,
    pub settle_ms: u64,
    pub typing_delay_ms: u64,
    /// How long the agent waits for an element to appear and become usable.
    pub element_timeout_ms: u64,
    /// Correlates the eventual report with this run; stale reports are dropped.
    pub nonce: u64,
}

/// The host of `url`, or the empty text when it does not parse or has no host.
pub open spec fn host_of(url: Seq<char>) -> Seq<char> {
    match parsed_url(url) {
        Ok((_, Some(h))) => h,
        _ => Seq::empty(),
    }
}

impl InjectionParams {
    pub fn from_config(cfg: &Config, nonce: u64) -> (r: InjectionParams)
        ensures
            r.expected_host@ == host_of(cfg.target_url@),
            r.selectors@ == cfg.selectors@,
            r.cleanup@ == cfg.cleanup@,
            r.payload@ == cfg.payload@,
            r.settle_ms == cfg.settle_ms,
            r.typing_delay_ms == cfg.typing_delay_ms,
            r.element_timeout_ms == cfg.element_timeout_ms,
            r.nonce == nonce,
    {
        let expected_host = match parse_url(cfg.target_url.as_str()) {
            Ok(parts) => match parts.host {
                Some(h) => h,
                None => String::new(),
            },
            Err(_) => String::new(),
        };
        InjectionParams {
            expected_host,
            selectors: cfg.selectors.clone(),
            cleanup: cfg.cleanup.clone(),
            payload: cfg.payload.clone(),
            settle_ms: cfg.settle_ms,
            typing_delay_ms: cfg.typing_delay_ms,
            element_timeout_ms: cfg.element_timeout_ms,
            nonce,
        }
    }
}

// ------------------------------------------------------------------ JSON

pub open spec fn hex_digit(d: nat) -> char {
    if d < 10 {
        crate::text::digit_char(d)
    } else if d == 10 {
        'a'
    } else if d == 11 {
        'b'
    } else if d == 12 {
        'c'
    } else if d == 13 {
        'd'
    } else if d == 14 {
        'e'
    } else {
        'f'
    }
}

/// How `serde_json` writes one character inside a string literal: quote and
/// backslash escaped, the usual short escapes for backspace, tab, newline,
/// form feed and carriage return, `\u00XX` for the other control characters,
/// and every other character as it is.
pub open spec fn json_escape_char(c: char) -> Seq<char> {
    if c == '"' {
        seq!['\\', '"']
    } else if c == '\\' {
        seq!['\\', '\\']
    } else if c == '\x08' {
        seq!['\\', 'b']
    } else if c == '\t' {
        seq!['\\', 't']
    } else if c == '\n' {
        seq!['\\', 'n']
    } else if c == '\x0c' {
        seq!['\\', 'f']
    } else if c == '\r' {
        seq!['\\', 'r']
    } else if (c as nat) < 0x20 {
        seq!['\\', 'u', '0', '0', hex_digit((c as nat) / 16), hex_digit((c as nat) % 16)]
    } else {
        seq![c]
    }
}

pub open spec fn json_escape(s: Seq<char>) -> Seq<char>
    decreases s.len(),
{
    if s.len() == 0 {
        Seq::empty()
    } else {
        json_escape(s.drop_last()) + json_escape_char(s.last())
    }
}

/// A JSON string literal holding `s`.
pub open spec fn json_quoted(s: Seq<char>) -> Seq<char> {
    seq!['"'] + json_escape(s) + seq!['"']
}

/// `serde_json::to_string` on a string: the string literal with the escapes
/// that `serde_json`'s escape table lists (see `json_escape_char`).
#[verifier::external_body]
pub(crate) fn json_string(s: &str) -> (r: String)
    ensures
        r@ == json_quoted(s@),
{
    serde_json::to_string(s).unwrap()
}

/// A JSON value for an optional text: `null` or a string literal.
pub open spec fn json_opt(o: Option<Seq<char>>) -> Seq<char> {
    match o {
        Some(s) => json_quoted(s),
        None => "null"@,
    }
}

pub open spec fn selectors_json(s: crate::config::SelectorsView) -> Seq<char> {
    "{\"authenticated\":"@ + json_quoted(s.authenticated) + ",\"login_indicator\":"@ + json_quoted(
        s.login_indicator,
    ) + ",\"action_button\":"@ + json_opt(s.action_button) + ",\"text_input\":"@ + json_quoted(
        s.text_input,
    ) + ",\"submit_button\":"@ + json_opt(s.submit_button) + ",\"response\":"@ + json_opt(
        s.response,
    ) + "}"@
}

pub open spec fn cleanup_json(c: crate::config::CleanupView) -> Seq<char> {
    "{\"menu_button\":"@ + json_opt(c.menu_button) + ",\"delete_option\":"@ + json_opt(
        c.delete_option,
    ) + ",\"confirm_button\":"@ + json_opt(c.confirm_button) + "}"@
}

/// The JSON object that `serde_json::to_string` makes of the parameters: the
/// fields in declaration order, absent options as `null`.
pub open spec fn params_json(p: InjectionParams) -> Seq<char> {
    "{\"expected_host\":"@ + json_quoted(p.expected_host@) + ",\"selectors\":"@ + selectors_json(
        p.selectors@,
    ) + ",\"cleanup\":"@ + cleanup_json(p.cleanup@) + ",\"payload\":"@ + json_quoted(p.payload@)
        + ",\"settle_ms\":"@ + decimal(p.settle_ms as nat) + ",\"typing_delay_ms\":"@ + decimal(
        p.typing_delay_ms as nat,
    ) + ",\"element_timeout_ms\":"@ + decimal(p.element_timeout_ms as nat) + ",\"nonce\":"@
        + decimal(p.nonce as nat) + "}"@
}

fn push_json_opt(out: &mut String, o: &Option<String>)
    ensures
        final(out)@ == old(out)@ + json_opt(opt_seq(*o)),
{
    match o {
        Some(s) => {
            let q = json_string(s.as_str());
            out.append(q.as_str());
        },
        None => {
            out.append("null");
        },
    }
}

fn push_json_str(out: &mut String, s: &String)
    ensures
        final(out)@ == old(out)@ + json_quoted(s@),
{
    let q = json_string(s.as_str());
    out.append(q.as_str());
}

fn push_selectors_json(out: &mut String, s: &Selectors)
    ensures
        final(out)@ == old(out)@ + selectors_json(s@),
{
    let ghost start = out@;
    out.append("{\"authenticated\":");
    push_json_str(out, &s.authenticated);
    out.append(",\"login_indicator\":");
    push_json_str(out, &s.login_indicator);
    out.append(",\"action_button\":");
    push_json_opt(out, &s.action_button);
    out.append(",\"text_input\":");
    push_json_str(out, &s.text_input);
    out.append(",\"submit_button\":");
    push_json_opt(out, &s.submit_button);
    out.append(",\"response\":");
    push_json_opt(out, &s.response);
    out.append("}");
    assert(out@ =~= start + selectors_json(s@));
}

fn push_cleanup_json(out: &mut String, c: &Cleanup)
    ensures
        final(out)@ == old(out)@ + cleanup_json(c@),
{
    let ghost start = out@;
    out.append("{\"menu_button\":");
    push_json_opt(out, &c.menu_button);
    out.append(",\"delete_option\":");
    push_json_opt(out, &c.delete_option);
    out.append(",\"confirm_button\":");
    push_json_opt(out, &c.confirm_button);
    out.append("}");
    assert(out@ =~= start + cleanup_json(c@));
}

/// The parameters as a JSON object literal.
pub fn params_to_json(p: &InjectionParams) -> (r: String)
    ensures
        r@ == params_json(*p),
{
    let mut out = String::new();
    out.append("{\"expected_host\":");
    push_json_str(&mut out, &p.expected_host);
    out.append(",\"selectors\":");
    push_selectors_json(&mut out, &p.selectors);
    out.append(",\"cleanup\":");
    push_cleanup_json(&mut out, &p.cleanup);
    out.append(",\"payload\":");
    push_json_str(&mut out, &p.payload);
    out.append(",\"settle_ms\":");
    push_decimal(&mut out, p.settle_ms);
    out.append(",\"typing_delay_ms\":");
    push_decimal(&mut out, p.typing_delay_ms);
    out.append(",\"element_timeout_ms\":");
    push_decimal(&mut out, p.element_timeout_ms);
    out.append(",\"nonce\":");
    push_decimal(&mut out, p.nonce);
    out.append("}");
    assert(out@ =~= params_json(*p));
    out
}

// ------------------------------------------------------------------ calls

/// The script that calls `method` of the agent with the parameters, or,
/// when the agent is missing, reports code 0 back instead of throwing.
pub open spec fn call_script(method: Seq<char>, json: Seq<char>) -> Seq<char> {
    "(function(){var p="@ + json + ";if(window.__PONG__){window.__PONG__."@ + method
        + "(p);}else{try{window.__TAURI_INTERNALS__.invoke('report_health',{payload:{code:0,detail:'probe agent not installed',latency_ms:0,nonce:p.nonce}});}catch(e){}}})()"@
}

fn build_call(method: &str, params: &InjectionParams) -> (r: String)
    ensures
        r@ == call_script(method@, params_json(*params)),
{
    let json = params_to_json(params);
    let mut out = String::from_str("(function(){var p=");
    out.append(json.as_str());
    out.append(";if(window.__PONG__){window.__PONG__.");
    out.append(method);
    out.append(
        "(p);}else{try{window.__TAURI_INTERNALS__.invoke('report_health',{payload:{code:0,detail:'probe agent not installed',latency_ms:0,nonce:p.nonce}});}catch(e){}}})()",
    );
    assert(out@ =~= call_script(method@, params_json(*params)));
    out
}

/// Evaluates a full synthetic check (click, type, submit, settle, re-probe).
pub fn build_check_call(params: &InjectionParams) -> (r: String)
    ensures
        r@ == call_script("runCheck"@, params_json(*params)),
{
    build_call("runCheck", params)
}

/// Evaluates a read-only heartbeat (inspection only, no interaction).
pub fn build_heartbeat_call(params: &InjectionParams) -> (r: String)
    ensures
        r@ == call_script("heartbeat"@, params_json(*params)),
{
    build_call("heartbeat", params)
}

/// The usage-panel scraper call for `nonce`, which reports an empty scrape
/// when the agent is missing.
pub open spec fn usage_script(nonce: u64) -> Seq<char> {
    "(function(){var p={nonce:"@ + decimal(nonce as nat)
        + "};if(window.__PONG__&&window.__PONG__.scrapeUsage){window.__PONG__.scrapeUsage(p);}else{try{window.__TAURI_INTERNALS__.invoke('report_usage',{payload:{session_percent:null,session_reset_text:null,weekly_percent:null,weekly_reset_text:null,nonce:p.nonce}});}catch(e){}}})()"@
}

/// Evaluates the usage-panel scraper; it needs nothing but a nonce to
/// correlate its report.
pub fn build_usage_call(nonce: u64) -> (r: String)
    ensures
        r@ == usage_script(nonce),
{
    let mut out = String::from_str("(function(){var p={nonce:");
    push_decimal(&mut out, nonce);
    out.append(
        "};if(window.__PONG__&&window.__PONG__.scrapeUsage){window.__PONG__.scrapeUsage(p);}else{try{window.__TAURI_INTERNALS__.invoke('report_usage',{payload:{session_percent:null,session_reset_text:null,weekly_percent:null,weekly_reset_text:null,nonce:p.nonce}});}catch(e){}}})()",
    );
    assert(out@ =~= usage_script(nonce));
    out
}

// ------------------------------------------------------------------ laws

/// Whether `s` holds no line break.
pub open spec fn single_line(s: Seq<char>) -> bool {
    forall|i: int| 0 <= i < s.len() ==> s[i] != '\n'
}

proof fn lemma_single_line_concat(a: Seq<char>, b: Seq<char>)
    requires
        single_line(a),
        single_line(b),
    ensures
        single_line(a + b),
{
    assert forall|i: int| 0 <= i < (a + b).len() implies (a + b)[i] != '\n' by {
        if i < a.len() {
            assert((a + b)[i] == a[i]);
        } else {
            assert((a + b)[i] == b[i - a.len()]);
        }
    }
}

proof fn lemma_decimal_single_line(n: nat)
    ensures
        single_line(decimal(n)),
    decreases n,
{
    if n >= 10 {
        lemma_decimal_single_line(n / 10);
    }
}

proof fn lemma_json_escape_single_line(s: Seq<char>)
    ensures
        single_line(json_escape(s)),
    decreases s.len(),
{
    if s.len() > 0 {
        lemma_json_escape_single_line(s.drop_last());
        let c = s.last();
        assert(single_line(json_escape_char(c)));
        lemma_single_line_concat(json_escape(s.drop_last()), json_escape_char(c));
    }
}

proof fn lemma_json_quoted_single_line(s: Seq<char>)
    ensures
        single_line(json_quoted(s)),
{
    lemma_json_escape_single_line(s);
    lemma_single_line_concat(seq!['"'], json_escape(s));
    lemma_single_line_concat(seq!['"'] + json_escape(s), seq!['"']);
}

proof fn lemma_json_opt_single_line(o: Option<Seq<char>>)
    ensures
        single_line(json_opt(o)),
{
    match o {
        Some(s) => lemma_json_quoted_single_line(s),
        None => {
            reveal_strlit("null");
        },
    }
}

proof fn lemma_concat_keeps_single_line()
    ensures
        forall|a: Seq<char>, b: Seq<char>|
            single_line(a) && single_line(b) ==> #[trigger] single_line(a + b),
{
    assert forall|a: Seq<char>, b: Seq<char>| single_line(a) && single_line(b) implies #[trigger] single_line(
        a + b,
    ) by {
        lemma_single_line_concat(a, b);
    }
}

proof fn lemma_selectors_json_single_line(sel: crate::config::SelectorsView)
    ensures
        single_line(selectors_json(sel)),
{
    lemma_concat_keeps_single_line();
    reveal_strlit("{\"authenticated\":");
    reveal_strlit(",\"login_indicator\":");
    reveal_strlit(",\"action_button\":");
    reveal_strlit(",\"text_input\":");
    reveal_strlit(",\"submit_button\":");
    reveal_strlit(",\"response\":");
    reveal_strlit("}");
    lemma_json_quoted_single_line(sel.authenticated);
    lemma_json_quoted_single_line(sel.login_indicator);
    lemma_json_quoted_single_line(sel.text_input);
    lemma_json_opt_single_line(sel.action_button);
    lemma_json_opt_single_line(sel.submit_button);
    lemma_json_opt_single_line(sel.response);
}

proof fn lemma_cleanup_json_single_line(cl: crate::config::CleanupView)
    ensures
        single_line(cleanup_json(cl)),
{
    lemma_concat_keeps_single_line();
    reveal_strlit("{\"menu_button\":");
    reveal_strlit(",\"delete_option\":");
    reveal_strlit(",\"confirm_button\":");
    reveal_strlit("}");
    lemma_json_opt_single_line(cl.menu_button);
    lemma_json_opt_single_line(cl.delete_option);
    lemma_json_opt_single_line(cl.confirm_button);
}

proof fn lemma_params_json_single_line(p: InjectionParams)
    ensures
        single_line(params_json(p)),
{
    reveal_strlit("{\"expected_host\":");
    reveal_strlit(",\"selectors\":");
    reveal_strlit(",\"cleanup\":");
    reveal_strlit(",\"payload\":");
    reveal_strlit(",\"settle_ms\":");
    reveal_strlit(",\"typing_delay_ms\":");
    reveal_strlit(",\"element_timeout_ms\":");
    reveal_strlit(",\"nonce\":");
    reveal_strlit("}");
    lemma_selectors_json_single_line(p.selectors@);
    lemma_cleanup_json_single_line(p.cleanup@);
    lemma_json_quoted_single_line(p.expected_host@);
    lemma_json_quoted_single_line(p.payload@);
    lemma_decimal_single_line(p.settle_ms as nat);
    lemma_decimal_single_line(p.typing_delay_ms as nat);
    lemma_decimal_single_line(p.element_timeout_ms as nat);
    lemma_decimal_single_line(p.nonce as nat);
    lemma_concat_keeps_single_line();
    let head = "{\"expected_host\":"@ + json_quoted(p.expected_host@) + ",\"selectors\":"@
        + selectors_json(p.selectors@) + ",\"cleanup\":"@ + cleanup_json(p.cleanup@)
        + ",\"payload\":"@ + json_quoted(p.payload@);
    assert(single_line(head));
    assert(single_line(params_json(p)));
}

/// No line break ever reaches the webview's `eval`: whatever the parameters
/// hold (a payload with newlines, selectors with quotes), the check,
/// heartbeat and usage scripts are a single line, every text going in
/// escaped.
pub proof fn lemma_calls_are_single_line(p: InjectionParams, nonce: u64)
    ensures
        single_line(call_script("runCheck"@, params_json(p))),
        single_line(call_script("heartbeat"@, params_json(p))),
        single_line(usage_script(nonce)),
{
    lemma_concat_keeps_single_line();
    lemma_params_json_single_line(p);
    lemma_decimal_single_line(nonce as nat);
    lemma_script_texts_single_line();
}

/// The fixed texts of the scripts hold no line break.
proof fn lemma_script_texts_single_line()
    ensures
        single_line("runCheck"@),
        single_line("heartbeat"@),
        single_line("(function(){var p="@),
        single_line(";if(window.__PONG__){window.__PONG__."@),
        single_line("(p);}else{try{window.__TAURI_INTERNALS__.invoke('report_health',{payload:{code:0,detail:'probe agent not installed',latency_ms:0,nonce:p.nonce}});}catch(e){}}})()"@),
        single_line("(function(){var p={nonce:"@),
        single_line("};if(window.__PONG__&&window.__PONG__.scrapeUsage){window.__PONG__.scrapeUsage(p);}else{try{window.__TAURI_INTERNALS__.invoke('report_usage',{payload:{session_percent:null,session_reset_text:null,weekly_percent:null,weekly_reset_text:null,nonce:p.nonce}});}catch(e){}}})()"@),
{
    reveal_strlit("runCheck");
    reveal_strlit("heartbeat");
    reveal_strlit("(function(){var p=");
    reveal_strlit(";if(window.__PONG__){window.__PONG__.");
    reveal_strlit("(p);}else{try{window.__TAURI_INTERNALS__.invoke('report_health',{payload:{code:0,detail:'probe agent not installed',latency_ms:0,nonce:p.nonce}});}catch(e){}}})()");
    reveal_strlit("(function(){var p={nonce:");
    reveal_strlit("};if(window.__PONG__&&window.__PONG__.scrapeUsage){window.__PONG__.scrapeUsage(p);}else{try{window.__TAURI_INTERNALS__.invoke('report_usage',{payload:{session_percent:null,session_reset_text:null,weekly_percent:null,weekly_reset_text:null,nonce:p.nonce}});}catch(e){}}})()");
}

/// Any text holds itself.
proof fn lemma_occurs_whole(n: Seq<char>)
    ensures
        has_substring(n, n),
{
    assert(n.subrange(0, n.len() as int) =~= n);
    assert(occurs_at(n, n, 0));
}

/// A text holds what it ends with.
proof fn lemma_occurs_suffix(pre: Seq<char>, n: Seq<char>)
    ensures
        has_substring(pre + n, n),
{
    assert((pre + n).subrange(pre.len() as int, (pre.len() + n.len()) as int) =~= n);
    assert(occurs_at(pre + n, n, pre.len() as int));
}

/// Appending to a text keeps what it holds.
proof fn lemma_occurs_extend(a: Seq<char>, b: Seq<char>, n: Seq<char>)
    requires
        has_substring(a, n),
    ensures
        has_substring(a + b, n),
{
    let at = choose|at: int| occurs_at(a, n, at);
    assert((a + b).subrange(at, at + n.len()) =~= a.subrange(at, at + n.len()));
    assert(occurs_at(a + b, n, at));
}

/// Each selector travels under its own key and from its own field: the
/// selectors' JSON holds every member name followed by the JSON value of
/// that same selector (a string literal, or `null` when an optional one is
/// unset).
pub proof fn lemma_selectors_json_carries_each_field(s: crate::config::SelectorsView)
    ensures
        has_substring(selectors_json(s), "{\"authenticated\":"@ + json_quoted(s.authenticated)),
        has_substring(selectors_json(s), ",\"login_indicator\":"@ + json_quoted(s.login_indicator)),
        has_substring(selectors_json(s), ",\"action_button\":"@ + json_opt(s.action_button)),
        has_substring(selectors_json(s), ",\"text_input\":"@ + json_quoted(s.text_input)),
        has_substring(selectors_json(s), ",\"submit_button\":"@ + json_opt(s.submit_button)),
        has_substring(selectors_json(s), ",\"response\":"@ + json_opt(s.response)),
{
    {
        lemma_occurs_whole("{\"authenticated\":"@ + json_quoted(s.authenticated));
        let acc = "{\"authenticated\":"@ + json_quoted(s.authenticated);
        lemma_occurs_extend(acc, ",\"login_indicator\":"@, "{\"authenticated\":"@ + json_quoted(s.authenticated));
        let acc = acc + ",\"login_indicator\":"@;
        lemma_occurs_extend(acc, json_quoted(s.login_indicator), "{\"authenticated\":"@ + json_quoted(s.authenticated));
        let acc = acc + json_quoted(s.login_indicator);
        lemma_occurs_extend(acc, ",\"action_button\":"@, "{\"authenticated\":"@ + json_quoted(s.authenticated));
        let acc = acc + ",\"action_button\":"@;
        lemma_occurs_extend(acc, json_opt(s.action_button), "{\"authenticated\":"@ + json_quoted(s.authenticated));
        let acc = acc + json_opt(s.action_button);
        lemma_occurs_extend(acc, ",\"text_input\":"@, "{\"authenticated\":"@ + json_quoted(s.authenticated));
        let acc = acc + ",\"text_input\":"@;
        lemma_occurs_extend(acc, json_quoted(s.text_input), "{\"authenticated\":"@ + json_quoted(s.authenticated));
        let acc = acc + json_quoted(s.text_input);
        lemma_occurs_extend(acc, ",\"submit_button\":"@, "{\"authenticated\":"@ + json_quoted(s.authenticated));
        let acc = acc + ",\"submit_button\":"@;
        lemma_occurs_extend(acc, json_opt(s.submit_button), "{\"authenticated\":"@ + json_quoted(s.authenticated));
        let acc = acc + json_opt(s.submit_button);
        lemma_occurs_extend(acc, ",\"response\":"@, "{\"authenticated\":"@ + json_quoted(s.authenticated));
        let acc = acc + ",\"response\":"@;
        lemma_occurs_extend(acc, json_opt(s.response), "{\"authenticated\":"@ + json_quoted(s.authenticated));
        let acc = acc + json_opt(s.response);
        lemma_occurs_extend(acc, "}"@, "{\"authenticated\":"@ + json_quoted(s.authenticated));
        let acc = acc + "}"@;
    }
    {
        let pre = "{\"authenticated\":"@ + json_quoted(s.authenticated);
        vstd::seq_lib::lemma_concat_associative(pre, ",\"login_indicator\":"@, json_quoted(s.login_indicator));
        lemma_occurs_suffix(pre, ",\"login_indicator\":"@ + json_quoted(s.login_indicator));
        let acc = pre + ",\"login_indicator\":"@ + json_quoted(s.login_indicator);
        lemma_occurs_extend(acc, ",\"action_button\":"@, ",\"login_indicator\":"@ + json_quoted(s.login_indicator));
        let acc = acc + ",\"action_button\":"@;
        lemma_occurs_extend(acc, json_opt(s.action_button), ",\"login_indicator\":"@ + json_quoted(s.login_indicator));
        let acc = acc + json_opt(s.action_button);
        lemma_occurs_extend(acc, ",\"text_input\":"@, ",\"login_indicator\":"@ + json_quoted(s.login_indicator));
        let acc = acc + ",\"text_input\":"@;
        lemma_occurs_extend(acc, json_quoted(s.text_input), ",\"login_indicator\":"@ + json_quoted(s.login_indicator));
        let acc = acc + json_quoted(s.text_input);
        lemma_occurs_extend(acc, ",\"submit_button\":"@, ",\"login_indicator\":"@ + json_quoted(s.login_indicator));
        let acc = acc + ",\"submit_button\":"@;
        lemma_occurs_extend(acc, json_opt(s.submit_button), ",\"login_indicator\":"@ + json_quoted(s.login_indicator));
        let acc = acc + json_opt(s.submit_button);
        lemma_occurs_extend(acc, ",\"response\":"@, ",\"login_indicator\":"@ + json_quoted(s.login_indicator));
        let acc = acc + ",\"response\":"@;
        lemma_occurs_extend(acc, json_opt(s.response), ",\"login_indicator\":"@ + json_quoted(s.login_indicator));
        let acc = acc + json_opt(s.response);
        lemma_occurs_extend(acc, "}"@, ",\"login_indicator\":"@ + json_quoted(s.login_indicator));
        let acc = acc + "}"@;
    }
    {
        let pre = "{\"authenticated\":"@ + json_quoted(s.authenticated) + ",\"login_indicator\":"@ + json_quoted(s.login_indicator);
        vstd::seq_lib::lemma_concat_associative(pre, ",\"action_button\":"@, json_opt(s.action_button));
        lemma_occurs_suffix(pre, ",\"action_button\":"@ + json_opt(s.action_button));
        let acc = pre + ",\"action_button\":"@ + json_opt(s.action_button);
        lemma_occurs_extend(acc, ",\"text_input\":"@, ",\"action_button\":"@ + json_opt(s.action_button));
        let acc = acc + ",\"text_input\":"@;
        lemma_occurs_extend(acc, json_quoted(s.text_input), ",\"action_button\":"@ + json_opt(s.action_button));
        let acc = acc + json_quoted(s.text_input);
        lemma_occurs_extend(acc, ",\"submit_button\":"@, ",\"action_button\":"@ + json_opt(s.action_button));
        let acc = acc + ",\"submit_button\":"@;
        lemma_occurs_extend(acc, json_opt(s.submit_button), ",\"action_button\":"@ + json_opt(s.action_button));
        let acc = acc + json_opt(s.submit_button);
        lemma_occurs_extend(acc, ",\"response\":"@, ",\"action_button\":"@ + json_opt(s.action_button));
        let acc = acc + ",\"response\":"@;
        lemma_occurs_extend(acc, json_opt(s.response), ",\"action_button\":"@ + json_opt(s.action_button));
        let acc = acc + json_opt(s.response);
        lemma_occurs_extend(acc, "}"@, ",\"action_button\":"@ + json_opt(s.action_button));
        let acc = acc + "}"@;
    }
    {
        let pre = "{\"authenticated\":"@ + json_quoted(s.authenticated) + ",\"login_indicator\":"@ + json_quoted(s.login_indicator) + ",\"action_button\":"@ + json_opt(s.action_button);
        vstd::seq_lib::lemma_concat_associative(pre, ",\"text_input\":"@, json_quoted(s.text_input));
        lemma_occurs_suffix(pre, ",\"text_input\":"@ + json_quoted(s.text_input));
        let acc = pre + ",\"text_input\":"@ + json_quoted(s.text_input);
        lemma_occurs_extend(acc, ",\"submit_button\":"@, ",\"text_input\":"@ + json_quoted(s.text_input));
        let acc = acc + ",\"submit_button\":"@;
        lemma_occurs_extend(acc, json_opt(s.submit_button), ",\"text_input\":"@ + json_quoted(s.text_input));
        let acc = acc + json_opt(s.submit_button);
        lemma_occurs_extend(acc, ",\"response\":"@, ",\"text_input\":"@ + json_quoted(s.text_input));
        let acc = acc + ",\"response\":"@;
        lemma_occurs_extend(acc, json_opt(s.response), ",\"text_input\":"@ + json_quoted(s.text_input));
        let acc = acc + json_opt(s.response);
        lemma_occurs_extend(acc, "}"@, ",\"text_input\":"@ + json_quoted(s.text_input));
        let acc = acc + "}"@;
    }
    {
        let pre = "{\"authenticated\":"@ + json_quoted(s.authenticated) + ",\"login_indicator\":"@ + json_quoted(s.login_indicator) + ",\"action_button\":"@ + json_opt(s.action_button) + ",\"text_input\":"@ + json_quoted(s.text_input);
        vstd::seq_lib::lemma_concat_associative(pre, ",\"submit_button\":"@, json_opt(s.submit_button));
        lemma_occurs_suffix(pre, ",\"submit_button\":"@ + json_opt(s.submit_button));
        let acc = pre + ",\"submit_button\":"@ + json_opt(s.submit_button);
        lemma_occurs_extend(acc, ",\"response\":"@, ",\"submit_button\":"@ + json_opt(s.submit_button));
        let acc = acc + ",\"response\":"@;
        lemma_occurs_extend(acc, json_opt(s.response), ",\"submit_button\":"@ + json_opt(s.submit_button));
        let acc = acc + json_opt(s.response);
        lemma_occurs_extend(acc, "}"@, ",\"submit_button\":"@ + json_opt(s.submit_button));
        let acc = acc + "}"@;
    }
    {
        let pre = "{\"authenticated\":"@ + json_quoted(s.authenticated) + ",\"login_indicator\":"@ + json_quoted(s.login_indicator) + ",\"action_button\":"@ + json_opt(s.action_button) + ",\"text_input\":"@ + json_quoted(s.text_input) + ",\"submit_button\":"@ + json_opt(s.submit_button);
        vstd::seq_lib::lemma_concat_associative(pre, ",\"response\":"@, json_opt(s.response));
        lemma_occurs_suffix(pre, ",\"response\":"@ + json_opt(s.response));
        let acc = pre + ",\"response\":"@ + json_opt(s.response);
        lemma_occurs_extend(acc, "}"@, ",\"response\":"@ + json_opt(s.response));
        let acc = acc + "}"@;
    }
}

/// Each cleanup step travels under its own key and from its own field.
pub proof fn lemma_cleanup_json_carries_each_field(c: crate::config::CleanupView)
    ensures
        has_substring(cleanup_json(c), "{\"menu_button\":"@ + json_opt(c.menu_button)),
        has_substring(cleanup_json(c), ",\"delete_option\":"@ + json_opt(c.delete_option)),
        has_substring(cleanup_json(c), ",\"confirm_button\":"@ + json_opt(c.confirm_button)),
{
    {
        lemma_occurs_whole("{\"menu_button\":"@ + json_opt(c.menu_button));
        let acc = "{\"menu_button\":"@ + json_opt(c.menu_button);
        lemma_occurs_extend(acc, ",\"delete_option\":"@, "{\"menu_button\":"@ + json_opt(c.menu_button));
        let acc = acc + ",\"delete_option\":"@;
        lemma_occurs_extend(acc, json_opt(c.delete_option), "{\"menu_button\":"@ + json_opt(c.menu_button));
        let acc = acc + json_opt(c.delete_option);
        lemma_occurs_extend(acc, ",\"confirm_button\":"@, "{\"menu_button\":"@ + json_opt(c.menu_button));
        let acc = acc + ",\"confirm_button\":"@;
        lemma_occurs_extend(acc, json_opt(c.confirm_button), "{\"menu_button\":"@ + json_opt(c.menu_button));
        let acc = acc + json_opt(c.confirm_button);
        lemma_occurs_extend(acc, "}"@, "{\"menu_button\":"@ + json_opt(c.menu_button));
        let acc = acc + "}"@;
    }
    {
        let pre = "{\"menu_button\":"@ + json_opt(c.menu_button);
        vstd::seq_lib::lemma_concat_associative(pre, ",\"delete_option\":"@, json_opt(c.delete_option));
        lemma_occurs_suffix(pre, ",\"delete_option\":"@ + json_opt(c.delete_option));
        let acc = pre + ",\"delete_option\":"@ + json_opt(c.delete_option);
        lemma_occurs_extend(acc, ",\"confirm_button\":"@, ",\"delete_option\":"@ + json_opt(c.delete_option));
        let acc = acc + ",\"confirm_button\":"@;
        lemma_occurs_extend(acc, json_opt(c.confirm_button), ",\"delete_option\":"@ + json_opt(c.delete_option));
        let acc = acc + json_opt(c.confirm_button);
        lemma_occurs_extend(acc, "}"@, ",\"delete_option\":"@ + json_opt(c.delete_option));
        let acc = acc + "}"@;
    }
    {
        let pre = "{\"menu_button\":"@ + json_opt(c.menu_button) + ",\"delete_option\":"@ + json_opt(c.delete_option);
        vstd::seq_lib::lemma_concat_associative(pre, ",\"confirm_button\":"@, json_opt(c.confirm_button));
        lemma_occurs_suffix(pre, ",\"confirm_button\":"@ + json_opt(c.confirm_button));
        let acc = pre + ",\"confirm_button\":"@ + json_opt(c.confirm_button);
        lemma_occurs_extend(acc, "}"@, ",\"confirm_button\":"@ + json_opt(c.confirm_button));
        let acc = acc + "}"@;
    }
}

/// Each parameter travels under its own key and from its own field: the
/// host, the selectors and cleanup objects, the payload, the three timings
/// and the nonce.
pub proof fn lemma_params_json_carries_each_field(p: InjectionParams)
    ensures
        has_substring(params_json(p), "{\"expected_host\":"@ + json_quoted(p.expected_host@)),
        has_substring(params_json(p), ",\"selectors\":"@ + selectors_json(p.selectors@)),
        has_substring(params_json(p), ",\"cleanup\":"@ + cleanup_json(p.cleanup@)),
        has_substring(params_json(p), ",\"payload\":"@ + json_quoted(p.payload@)),
        has_substring(params_json(p), ",\"settle_ms\":"@ + decimal(p.settle_ms as nat)),
        has_substring(params_json(p), ",\"typing_delay_ms\":"@ + decimal(p.typing_delay_ms as nat)),
        has_substring(params_json(p), ",\"element_timeout_ms\":"@ + decimal(p.element_timeout_ms as nat)),
        has_substring(params_json(p), ",\"nonce\":"@ + decimal(p.nonce as nat)),
{
    {
        lemma_occurs_whole("{\"expected_host\":"@ + json_quoted(p.expected_host@));
        let acc = "{\"expected_host\":"@ + json_quoted(p.expected_host@);
        lemma_occurs_extend(acc, ",\"selectors\":"@, "{\"expected_host\":"@ + json_quoted(p.expected_host@));
        let acc = acc + ",\"selectors\":"@;
        lemma_occurs_extend(acc, selectors_json(p.selectors@), "{\"expected_host\":"@ + json_quoted(p.expected_host@));
        let acc = acc + selectors_json(p.selectors@);
        lemma_occurs_extend(acc, ",\"cleanup\":"@, "{\"expected_host\":"@ + json_quoted(p.expected_host@));
        let acc = acc + ",\"cleanup\":"@;
        lemma_occurs_extend(acc, cleanup_json(p.cleanup@), "{\"expected_host\":"@ + json_quoted(p.expected_host@));
        let acc = acc + cleanup_json(p.cleanup@);
        lemma_occurs_extend(acc, ",\"payload\":"@, "{\"expected_host\":"@ + json_quoted(p.expected_host@));
        let acc = acc + ",\"payload\":"@;
        lemma_occurs_extend(acc, json_quoted(p.payload@), "{\"expected_host\":"@ + json_quoted(p.expected_host@));
        let acc = acc + json_quoted(p.payload@);
        lemma_occurs_extend(acc, ",\"settle_ms\":"@, "{\"expected_host\":"@ + json_quoted(p.expected_host@));
        let acc = acc + ",\"settle_ms\":"@;
        lemma_occurs_extend(acc, decimal(p.settle_ms as nat), "{\"expected_host\":"@ + json_quoted(p.expected_host@));
        let acc = acc + decimal(p.settle_ms as nat);
        lemma_occurs_extend(acc, ",\"typing_delay_ms\":"@, "{\"expected_host\":"@ + json_quoted(p.expected_host@));
        let acc = acc + ",\"typing_delay_ms\":"@;
        lemma_occurs_extend(acc, decimal(p.typing_delay_ms as nat), "{\"expected_host\":"@ + json_quoted(p.expected_host@));
        let acc = acc + decimal(p.typing_delay_ms as nat);
        lemma_occurs_extend(acc, ",\"element_timeout_ms\":"@, "{\"expected_host\":"@ + json_quoted(p.expected_host@));
        let acc = acc + ",\"element_timeout_ms\":"@;
        lemma_occurs_extend(acc, decimal(p.element_timeout_ms as nat), "{\"expected_host\":"@ + json_quoted(p.expected_host@));
        let acc = acc + decimal(p.element_timeout_ms as nat);
        lemma_occurs_extend(acc, ",\"nonce\":"@, "{\"expected_host\":"@ + json_quoted(p.expected_host@));
        let acc = acc + ",\"nonce\":"@;
        lemma_occurs_extend(acc, decimal(p.nonce as nat), "{\"expected_host\":"@ + json_quoted(p.expected_host@));
        let acc = acc + decimal(p.nonce as nat);
        lemma_occurs_extend(acc, "}"@, "{\"expected_host\":"@ + json_quoted(p.expected_host@));
        let acc = acc + "}"@;
    }
    {
        let pre = "{\"expected_host\":"@ + json_quoted(p.expected_host@);
        vstd::seq_lib::lemma_concat_associative(pre, ",\"selectors\":"@, selectors_json(p.selectors@));
        lemma_occurs_suffix(pre, ",\"selectors\":"@ + selectors_json(p.selectors@));
        let acc = pre + ",\"selectors\":"@ + selectors_json(p.selectors@);
        lemma_occurs_extend(acc, ",\"cleanup\":"@, ",\"selectors\":"@ + selectors_json(p.selectors@));
        let acc = acc + ",\"cleanup\":"@;
        lemma_occurs_extend(acc, cleanup_json(p.cleanup@), ",\"selectors\":"@ + selectors_json(p.selectors@));
        let acc = acc + cleanup_json(p.cleanup@);
        lemma_occurs_extend(acc, ",\"payload\":"@, ",\"selectors\":"@ + selectors_json(p.selectors@));
        let acc = acc + ",\"payload\":"@;
        lemma_occurs_extend(acc, json_quoted(p.payload@), ",\"selectors\":"@ + selectors_json(p.selectors@));
        let acc = acc + json_quoted(p.payload@);
        lemma_occurs_extend(acc, ",\"settle_ms\":"@, ",\"selectors\":"@ + selectors_json(p.selectors@));
        let acc = acc + ",\"settle_ms\":"@;
        lemma_occurs_extend(acc, decimal(p.settle_ms as nat), ",\"selectors\":"@ + selectors_json(p.selectors@));
        let acc = acc + decimal(p.settle_ms as nat);
        lemma_occurs_extend(acc, ",\"typing_delay_ms\":"@, ",\"selectors\":"@ + selectors_json(p.selectors@));
        let acc = acc + ",\"typing_delay_ms\":"@;
        lemma_occurs_extend(acc, decimal(p.typing_delay_ms as nat), ",\"selectors\":"@ + selectors_json(p.selectors@));
        let acc = acc + decimal(p.typing_delay_ms as nat);
        lemma_occurs_extend(acc, ",\"element_timeout_ms\":"@, ",\"selectors\":"@ + selectors_json(p.selectors@));
        let acc = acc + ",\"element_timeout_ms\":"@;
        lemma_occurs_extend(acc, decimal(p.element_timeout_ms as nat), ",\"selectors\":"@ + selectors_json(p.selectors@));
        let acc = acc + decimal(p.element_timeout_ms as nat);
        lemma_occurs_extend(acc, ",\"nonce\":"@, ",\"selectors\":"@ + selectors_json(p.selectors@));
        let acc = acc + ",\"nonce\":"@;
        lemma_occurs_extend(acc, decimal(p.nonce as nat), ",\"selectors\":"@ + selectors_json(p.selectors@));
        let acc = acc + decimal(p.nonce as nat);
        lemma_occurs_extend(acc, "}"@, ",\"selectors\":"@ + selectors_json(p.selectors@));
        let acc = acc + "}"@;
    }
    {
        let pre = "{\"expected_host\":"@ + json_quoted(p.expected_host@) + ",\"selectors\":"@ + selectors_json(p.selectors@);
        vstd::seq_lib::lemma_concat_associative(pre, ",\"cleanup\":"@, cleanup_json(p.cleanup@));
        lemma_occurs_suffix(pre, ",\"cleanup\":"@ + cleanup_json(p.cleanup@));
        let acc = pre + ",\"cleanup\":"@ + cleanup_json(p.cleanup@);
        lemma_occurs_extend(acc, ",\"payload\":"@, ",\"cleanup\":"@ + cleanup_json(p.cleanup@));
        let acc = acc + ",\"payload\":"@;
        lemma_occurs_extend(acc, json_quoted(p.payload@), ",\"cleanup\":"@ + cleanup_json(p.cleanup@));
        let acc = acc + json_quoted(p.payload@);
        lemma_occurs_extend(acc, ",\"settle_ms\":"@, ",\"cleanup\":"@ + cleanup_json(p.cleanup@));
        let acc = acc + ",\"settle_ms\":"@;
        lemma_occurs_extend(acc, decimal(p.settle_ms as nat), ",\"cleanup\":"@ + cleanup_json(p.cleanup@));
        let acc = acc + decimal(p.settle_ms as nat);
        lemma_occurs_extend(acc, ",\"typing_delay_ms\":"@, ",\"cleanup\":"@ + cleanup_json(p.cleanup@));
        let acc = acc + ",\"typing_delay_ms\":"@;
        lemma_occurs_extend(acc, decimal(p.typing_delay_ms as nat), ",\"cleanup\":"@ + cleanup_json(p.cleanup@));
        let acc = acc + decimal(p.typing_delay_ms as nat);
        lemma_occurs_extend(acc, ",\"element_timeout_ms\":"@, ",\"cleanup\":"@ + cleanup_json(p.cleanup@));
        let acc = acc + ",\"element_timeout_ms\":"@;
        lemma_occurs_extend(acc, decimal(p.element_timeout_ms as nat), ",\"cleanup\":"@ + cleanup_json(p.cleanup@));
        let acc = acc + decimal(p.element_timeout_ms as nat);
        lemma_occurs_extend(acc, ",\"nonce\":"@, ",\"cleanup\":"@ + cleanup_json(p.cleanup@));
        let acc = acc + ",\"nonce\":"@;
        lemma_occurs_extend(acc, decimal(p.nonce as nat), ",\"cleanup\":"@ + cleanup_json(p.cleanup@));
        let acc = acc + decimal(p.nonce as nat);
        lemma_occurs_extend(acc, "}"@, ",\"cleanup\":"@ + cleanup_json(p.cleanup@));
        let acc = acc + "}"@;
    }
    {
        let pre = "{\"expected_host\":"@ + json_quoted(p.expected_host@) + ",\"selectors\":"@ + selectors_json(p.selectors@) + ",\"cleanup\":"@ + cleanup_json(p.cleanup@);
        vstd::seq_lib::lemma_concat_associative(pre, ",\"payload\":"@, json_quoted(p.payload@));
        lemma_occurs_suffix(pre, ",\"payload\":"@ + json_quoted(p.payload@));
        let acc = pre + ",\"payload\":"@ + json_quoted(p.payload@);
        lemma_occurs_extend(acc, ",\"settle_ms\":"@, ",\"payload\":"@ + json_quoted(p.payload@));
        let acc = acc + ",\"settle_ms\":"@;
        lemma_occurs_extend(acc, decimal(p.settle_ms as nat), ",\"payload\":"@ + json_quoted(p.payload@));
        let acc = acc + decimal(p.settle_ms as nat);
        lemma_occurs_extend(acc, ",\"typing_delay_ms\":"@, ",\"payload\":"@ + json_quoted(p.payload@));
        let acc = acc + ",\"typing_delay_ms\":"@;
        lemma_occurs_extend(acc, decimal(p.typing_delay_ms as nat), ",\"payload\":"@ + json_quoted(p.payload@));
        let acc = acc + decimal(p.typing_delay_ms as nat);
        lemma_occurs_extend(acc, ",\"element_timeout_ms\":"@, ",\"payload\":"@ + json_quoted(p.payload@));
        let acc = acc + ",\"element_timeout_ms\":"@;
        lemma_occurs_extend(acc, decimal(p.element_timeout_ms as nat), ",\"payload\":"@ + json_quoted(p.payload@));
        let acc = acc + decimal(p.element_timeout_ms as nat);
        lemma_occurs_extend(acc, ",\"nonce\":"@, ",\"payload\":"@ + json_quoted(p.payload@));
        let acc = acc + ",\"nonce\":"@;
        lemma_occurs_extend(acc, decimal(p.nonce as nat), ",\"payload\":"@ + json_quoted(p.payload@));
        let acc = acc + decimal(p.nonce as nat);
        lemma_occurs_extend(acc, "}"@, ",\"payload\":"@ + json_quoted(p.payload@));
        let acc = acc + "}"@;
    }
    {
        let pre = "{\"expected_host\":"@ + json_quoted(p.expected_host@) + ",\"selectors\":"@ + selectors_json(p.selectors@) + ",\"cleanup\":"@ + cleanup_json(p.cleanup@) + ",\"payload\":"@ + json_quoted(p.payload@);
        vstd::seq_lib::lemma_concat_associative(pre, ",\"settle_ms\":"@, decimal(p.settle_ms as nat));
        lemma_occurs_suffix(pre, ",\"settle_ms\":"@ + decimal(p.settle_ms as nat));
        let acc = pre + ",\"settle_ms\":"@ + decimal(p.settle_ms as nat);
        lemma_occurs_extend(acc, ",\"typing_delay_ms\":"@, ",\"settle_ms\":"@ + decimal(p.settle_ms as nat));
        let acc = acc + ",\"typing_delay_ms\":"@;
        lemma_occurs_extend(acc, decimal(p.typing_delay_ms as nat), ",\"settle_ms\":"@ + decimal(p.settle_ms as nat));
        let acc = acc + decimal(p.typing_delay_ms as nat);
        lemma_occurs_extend(acc, ",\"element_timeout_ms\":"@, ",\"settle_ms\":"@ + decimal(p.settle_ms as nat));
        let acc = acc + ",\"element_timeout_ms\":"@;
        lemma_occurs_extend(acc, decimal(p.element_timeout_ms as nat), ",\"settle_ms\":"@ + decimal(p.settle_ms as nat));
        let acc = acc + decimal(p.element_timeout_ms as nat);
        lemma_occurs_extend(acc, ",\"nonce\":"@, ",\"settle_ms\":"@ + decimal(p.settle_ms as nat));
        let acc = acc + ",\"nonce\":"@;
        lemma_occurs_extend(acc, decimal(p.nonce as nat), ",\"settle_ms\":"@ + decimal(p.settle_ms as nat));
        let acc = acc + decimal(p.nonce as nat);
        lemma_occurs_extend(acc, "}"@, ",\"settle_ms\":"@ + decimal(p.settle_ms as nat));
        let acc = acc + "}"@;
    }
    {
        let pre = "{\"expected_host\":"@ + json_quoted(p.expected_host@) + ",\"selectors\":"@ + selectors_json(p.selectors@) + ",\"cleanup\":"@ + cleanup_json(p.cleanup@) + ",\"payload\":"@ + json_quoted(p.payload@) + ",\"settle_ms\":"@ + decimal(p.settle_ms as nat);
        vstd::seq_lib::lemma_concat_associative(pre, ",\"typing_delay_ms\":"@, decimal(p.typing_delay_ms as nat));
        lemma_occurs_suffix(pre, ",\"typing_delay_ms\":"@ + decimal(p.typing_delay_ms as nat));
        let acc = pre + ",\"typing_delay_ms\":"@ + decimal(p.typing_delay_ms as nat);
        lemma_occurs_extend(acc, ",\"element_timeout_ms\":"@, ",\"typing_delay_ms\":"@ + decimal(p.typing_delay_ms as nat));
        let acc = acc + ",\"element_timeout_ms\":"@;
        lemma_occurs_extend(acc, decimal(p.element_timeout_ms as nat), ",\"typing_delay_ms\":"@ + decimal(p.typing_delay_ms as nat));
        let acc = acc + decimal(p.element_timeout_ms as nat);
        lemma_occurs_extend(acc, ",\"nonce\":"@, ",\"typing_delay_ms\":"@ + decimal(p.typing_delay_ms as nat));
        let acc = acc + ",\"nonce\":"@;
        lemma_occurs_extend(acc, decimal(p.nonce as nat), ",\"typing_delay_ms\":"@ + decimal(p.typing_delay_ms as nat));
        let acc = acc + decimal(p.nonce as nat);
        lemma_occurs_extend(acc, "}"@, ",\"typing_delay_ms\":"@ + decimal(p.typing_delay_ms as nat));
        let acc = acc + "}"@;
    }
    {
        let pre = "{\"expected_host\":"@ + json_quoted(p.expected_host@) + ",\"selectors\":"@ + selectors_json(p.selectors@) + ",\"cleanup\":"@ + cleanup_json(p.cleanup@) + ",\"payload\":"@ + json_quoted(p.payload@) + ",\"settle_ms\":"@ + decimal(p.settle_ms as nat) + ",\"typing_delay_ms\":"@ + decimal(p.typing_delay_ms as nat);
        vstd::seq_lib::lemma_concat_associative(pre, ",\"element_timeout_ms\":"@, decimal(p.element_timeout_ms as nat));
        lemma_occurs_suffix(pre, ",\"element_timeout_ms\":"@ + decimal(p.element_timeout_ms as nat));
        let acc = pre + ",\"element_timeout_ms\":"@ + decimal(p.element_timeout_ms as nat);
        lemma_occurs_extend(acc, ",\"nonce\":"@, ",\"element_timeout_ms\":"@ + decimal(p.element_timeout_ms as nat));
        let acc = acc + ",\"nonce\":"@;
        lemma_occurs_extend(acc, decimal(p.nonce as nat), ",\"element_timeout_ms\":"@ + decimal(p.element_timeout_ms as nat));
        let acc = acc + decimal(p.nonce as nat);
        lemma_occurs_extend(acc, "}"@, ",\"element_timeout_ms\":"@ + decimal(p.element_timeout_ms as nat));
        let acc = acc + "}"@;
    }
    {
        let pre = "{\"expected_host\":"@ + json_quoted(p.expected_host@) + ",\"selectors\":"@ + selectors_json(p.selectors@) + ",\"cleanup\":"@ + cleanup_json(p.cleanup@) + ",\"payload\":"@ + json_quoted(p.payload@) + ",\"settle_ms\":"@ + decimal(p.settle_ms as nat) + ",\"typing_delay_ms\":"@ + decimal(p.typing_delay_ms as nat) + ",\"element_timeout_ms\":"@ + decimal(p.element_timeout_ms as nat);
        vstd::seq_lib::lemma_concat_associative(pre, ",\"nonce\":"@, decimal(p.nonce as nat));
        lemma_occurs_suffix(pre, ",\"nonce\":"@ + decimal(p.nonce as nat));
        let acc = pre + ",\"nonce\":"@ + decimal(p.nonce as nat);
        lemma_occurs_extend(acc, "}"@, ",\"nonce\":"@ + decimal(p.nonce as nat));
        let acc = acc + "}"@;
    }
}

} // verus!
