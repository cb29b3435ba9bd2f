//! The dispatch engine.
//!
//! Given a configuration snapshot, a severity and a message, the engine
//! renders the final line and computes the full fan-out plan for the event:
//! the console write, one send per configured webhook sink and one append
//! per configured file sink, each in registration order. The caller that
//! owns the process's streams, files and transport carries the plan out;
//! because every configured sink has its own entry in the plan, a failure
//! while carrying out one entry cannot remove another from it.

use crate::config::Backtrace;
use crate::config::Color;
use crate::config::Config;
use crate::config::Console;
use crate::config::Log;
use crate::config::Time;
use crate::config::WebRequest;
use crate::config::WebhookSink;
use crate::config::index;
use crate::config::sev_index;
use crate::text::rendered_spec;
use crate::text::render_line;
use crate::text::simple_suffix;
use crate::text::simple_suffix_spec;
use crate::text::subst_spec;
use crate::text::substitute;
use colored::Colorize;
use vstd::prelude::*;
use vstd::string::StringExecFns;

verus! {

/// The call site of an entry point, threaded through for the Simple
/// backtrace suffix.
pub struct CallSite {
    pub file: String,
    pub line: u32,
    pub col: u32,
}

/// The console part of a dispatch plan: which stream the line goes to and
/// the color it is printed in.
pub struct ConsoleWrite {
    /// Standard error when true, standard output when false.
    pub stderr: bool,
    pub color: Color,
}

/// One webhook send of a dispatch plan: the sink's request template and
/// the body with the rendered line already substituted in.
pub struct WebSend {
    pub request: WebRequest,
    pub body: String,
}

/// One file append of a dispatch plan: the sink's path and the line to
/// append.
pub struct FileAppend {
    pub path: String,
    pub line: String,
}

/// The full fan-out plan for one event: the rendered line, the console
/// write if the severity's console target is enabled, and one entry per
/// configured webhook and file sink, in registration order.
pub struct DispatchPlan {
    pub line: String,
    pub console: Option<ConsoleWrite>,
    pub webs: Vec<WebSend>,
    pub files: Vec<FileAppend>,
    /// The Fatal severity's color, used to report sink failures.
    pub fatal_color: Color,
}

/// The backtrace suffix of a rendered line under one policy.
pub open spec fn suffix_spec(
    policy: Backtrace,
    file: Seq<char>,
    line: int,
    col: int,
    trace: Seq<char>,
) -> Seq<char> {
    match policy {
        Backtrace::_None => Seq::<char>::empty(),
        Backtrace::Simple => simple_suffix_spec(file, line, col),
        Backtrace::Complex => seq!['\n'] + trace,
    }
}

/// One webhook send carries exactly one configured sink: the same request
/// template, and the rendered line substituted into the sink's format.
pub open spec fn web_send_matches(w: WebSend, s: WebhookSink, line: Seq<char>) -> bool {
    &&& w.request.method == s.request.method
    &&& w.request.url == s.request.url
    &&& w.request.headers@ == s.request.headers@
    &&& w.body@ == subst_spec(s.format@, line)
}

/// One file append carries exactly one configured sink: the same path and
/// the rendered line.
pub open spec fn file_append_matches(f: FileAppend, path: String, line: Seq<char>) -> bool {
    &&& f.path == path
    &&& f.line@ == line
}

/// Relies on chrono's `Utc::now` and the `Display` of `DateTime<Utc>`:
/// the current time in UTC, rendered as a timestamp string. The text
/// depends on the clock, so only nonemptiness is stated.
#[verifier::external_body]
fn now_utc_string() -> (r: String)
    ensures
        r@.len() > 0,
{
    chrono::Utc::now().to_string()
}

/// Relies on chrono's `Local::now` and the `Display` of
/// `DateTime<Local>`: the current time in the machine's local zone,
/// rendered as a timestamp string. The text depends on the clock and the
/// zone, so only nonemptiness is stated.
#[verifier::external_body]
fn now_local_string() -> (r: String)
    ensures
        r@.len() > 0,
{
    chrono::Local::now().to_string()
}

/// Relies on `backtrace::Backtrace::new` and its `Debug` form: a capture
/// of the current thread's stack. The text depends on the call stack and
/// the build, so nothing is promised of it.
#[verifier::external_body]
fn capture_trace() -> String {
    format!("{:?}", backtrace::Backtrace::new())
}

/// The ANSI escape character; colored text without it passes through the
/// colorizer intact.
pub open spec fn escape_char() -> char {
    '\u{1b}'
}

/// Relies on colored's `Colorize::color` with a true-color value and the
/// `Display` of `ColoredString`: the text framed by the color's style
/// prefix and the reset sequence, or unchanged when coloring is disabled.
/// Either way a text free of the escape character appears verbatim inside
/// the result.
#[verifier::external_body]
fn colorize(text: &str, r: u8, g: u8, b: u8) -> (res: String)
    ensures
        (forall|i: int| 0 <= i < text@.len() ==> text@[i] != escape_char()) ==> exists|
            pre: Seq<char>,
            suf: Seq<char>,
        | res@ == pre + text@ + suf,
{
    text.color(colored::Color::TrueColor { r, g, b }).to_string()
}

/// The colorized form of a rendered line for the console. Color is
/// cosmetic: a line free of the escape character is contained verbatim in
/// the printed text.
pub fn console_text(line: &str, color: Color) -> (r: String)
    ensures
        (forall|i: int| 0 <= i < line@.len() ==> line@[i] != escape_char()) ==> exists|
            pre: Seq<char>,
            suf: Seq<char>,
        | r@ == pre + line@ + suf,
{
    colorize(line, color.r, color.g, color.b)
}

/// The display name of a severity.
pub open spec fn severity_name_spec(l: Log) -> Seq<char> {
    match l {
        Log::Info => "Info"@,
        Log::Warn => "Warn"@,
        Log::Error => "Error"@,
        Log::Fatal => "Fatal"@,
        Log::_None => "_None"@,
    }
}

/// The display name of a severity, for diagnostic lines.
pub fn severity_name(severity: Log) -> (r: &'static str)
    ensures
        r@ == severity_name_spec(severity),
{
    match severity {
        Log::Info => "Info",
        Log::Warn => "Warn",
        Log::Error => "Error",
        Log::Fatal => "Fatal",
        Log::_None => "_None",
    }
}

/// The diagnostic line reporting one failed webhook send; the dispatch of
/// the event goes on with its remaining sinks.
pub fn web_failure_report(severity: Log, line: &str, detail: &str) -> (r: String)
    ensures
        r@ == "Failed to send a http request as a "@ + severity_name_spec(severity)
            + " and wanted to send '"@ + line@ + "', Request error: "@ + detail@,
{
    let mut out = "Failed to send a http request as a ".to_string();
    out.append(severity_name(severity));
    out.append(" and wanted to send '");
    out.append(line);
    out.append("', Request error: ");
    out.append(detail);
    out
}

/// The diagnostic line reporting one failed file append; the dispatch of
/// the event goes on with its remaining sinks.
pub fn file_failure_report(path: &str, severity: Log, line: &str, detail: &str) -> (r: String)
    ensures
        r@ == "Couldn't write to file "@ + path@ + ", wanted to write '"@ + line@ + "' as a "@
            + severity_name_spec(severity) + ", error: "@ + detail@,
{
    let mut out = "Couldn't write to file ".to_string();
    out.append(path);
    out.append(", wanted to write '");
    out.append(line);
    out.append("' as a ");
    out.append(severity_name(severity));
    out.append(", error: ");
    out.append(detail);
    out
}

/// Clones a header list value for value.
fn clone_headers(headers: &Vec<(String, String)>) -> (r: Vec<(String, String)>)
    ensures
        r@ == headers@,
{
    let mut out: Vec<(String, String)> = Vec::new();
    let mut i: usize = 0;
    while i < headers.len()
        invariant
            i <= headers@.len(),
            out@.len() == i,
            forall|j: int| 0 <= j < i ==> out@[j] == headers@[j],
        decreases headers@.len() - i,
    {
        let pair = &headers[i];
        out.push((pair.0.clone(), pair.1.clone()));
        i = i + 1;
    }
    proof {
        assert(out@ =~= headers@);
    }
    out
}

/// Clones a request template.
fn clone_request(req: &WebRequest) -> (r: WebRequest)
    ensures
        r.method == req.method,
        r.url == req.url,
        r.headers@ == req.headers@,
{
    WebRequest {
        method: req.method.clone(),
        url: req.url.clone(),
        headers: clone_headers(&req.headers),
    }
}

/// Computes the fan-out plan for one event from an explicit timestamp and
/// captured trace. The plan's line is the rendered line; its console part
/// follows the severity's console target; its webhook and file entries
/// list every configured sink of the severity, in registration order —
/// none is conditional on any other, so a failure while one entry is
/// carried out leaves the rest of the plan standing. A severity with no
/// configured sinks yields a plan with no webhook or file entries at all.
pub fn dispatch_with(
    config: &Config,
    severity: Log,
    message: &str,
    site: &CallSite,
    ts: &str,
    trace: &str,
) -> (p: DispatchPlan)
    requires
        config.wf(),
        !(severity is _None),
    ensures
        p.line@ == rendered_spec(
            ts@,
            message@,
            suffix_spec(
                config.backtrace@[sev_index(severity)],
                site.file@,
                site.line as int,
                site.col as int,
                trace@,
            ),
        ),
        p.console is None <==> config.console@[sev_index(severity)] is _None,
        p.console matches Some(cw) ==> ((cw.stderr <==> config.console@[sev_index(severity)]
            is Stderr) && cw.color == config.color@[sev_index(severity)]),
        p.webs@.len() == config.web@[sev_index(severity)]@.len(),
        forall|k: int|
            0 <= k < p.webs@.len() ==> web_send_matches(
                #[trigger] p.webs@[k],
                config.web@[sev_index(severity)]@[k],
                p.line@,
            ),
        p.files@.len() == config.file@[sev_index(severity)]@.len(),
        forall|k: int|
            0 <= k < p.files@.len() ==> file_append_matches(
                #[trigger] p.files@[k],
                config.file@[sev_index(severity)]@[k],
                p.line@,
            ),
        p.fatal_color == config.color@[3],
        config.web@[sev_index(severity)]@.len() == 0 && config.file@[sev_index(severity)]@.len()
            == 0 ==> p.webs@.len() == 0 && p.files@.len() == 0,
{
    let i: usize = match index(severity) {
        Ok(i) => i,
        Err(_) => 0,
    };
    let suffix: String = match config.backtrace[i] {
        Backtrace::_None => String::new(),
        Backtrace::Simple => simple_suffix(site.file.as_str(), site.line, site.col),
        Backtrace::Complex => {
            let mut s = "\n".to_string();
            s.append(trace);
            proof {
                reveal_strlit("\n");
                assert(s@ =~= seq!['\n'] + trace@);
            }
            s
        },
    };
    let line = render_line(ts, message, suffix.as_str());
    let console: Option<ConsoleWrite> = match config.console[i] {
        Console::_None => None,
        Console::Stdout => Some(ConsoleWrite { stderr: false, color: config.color[i] }),
        Console::Stderr => Some(ConsoleWrite { stderr: true, color: config.color[i] }),
    };
    let ghost sinkseq = config.web@[i as int]@;
    let sinks = &config.web[i];
    let mut webs: Vec<WebSend> = Vec::new();
    let mut j: usize = 0;
    while j < sinks.len()
        invariant
            sinks@ == sinkseq,
            j <= sinkseq.len(),
            webs@.len() == j,
            forall|k: int| 0 <= k < j ==> web_send_matches(#[trigger] webs@[k], sinkseq[k], line@),
        decreases sinkseq.len() - j,
    {
        let sink = &sinks[j];
        let body = substitute(sink.format.as_str(), line.as_str());
        webs.push(WebSend { request: clone_request(&sink.request), body });
        j = j + 1;
    }
    let ghost pathseq = config.file@[i as int]@;
    let paths = &config.file[i];
    let mut files: Vec<FileAppend> = Vec::new();
    let mut k: usize = 0;
    while k < paths.len()
        invariant
            paths@ == pathseq,
            k <= pathseq.len(),
            files@.len() == k,
            forall|m: int|
                0 <= m < k ==> file_append_matches(#[trigger] files@[m], pathseq[m], line@),
        decreases pathseq.len() - k,
    {
        files.push(FileAppend { path: paths[k].clone(), line: line.clone() });
        k = k + 1;
    }
    DispatchPlan { line, console, webs, files, fatal_color: config.color[3] }
}

/// Dispatches one event against a configuration snapshot: takes the
/// timestamp in the configured time-zone mode, captures a stack trace if
/// the severity's policy asks for one, and computes the fan-out plan. The
/// plan relates to the snapshot exactly as in [`dispatch_with`]; the
/// timestamp comes from the clock, so it is only known to be nonempty.
pub fn dispatch(config: &Config, severity: Log, message: &str, site: &CallSite) -> (p:
    DispatchPlan)
    requires
        config.wf(),
        !(severity is _None),
    ensures
        exists|ts: Seq<char>, trace: Seq<char>|
            ts.len() > 0 && p.line@ == rendered_spec(
                ts,
                message@,
                suffix_spec(
                    config.backtrace@[sev_index(severity)],
                    site.file@,
                    site.line as int,
                    site.col as int,
                    trace,
                ),
            ),
        p.console is None <==> config.console@[sev_index(severity)] is _None,
        p.console matches Some(cw) ==> ((cw.stderr <==> config.console@[sev_index(severity)]
            is Stderr) && cw.color == config.color@[sev_index(severity)]),
        p.webs@.len() == config.web@[sev_index(severity)]@.len(),
        forall|k: int|
            0 <= k < p.webs@.len() ==> web_send_matches(
                #[trigger] p.webs@[k],
                config.web@[sev_index(severity)]@[k],
                p.line@,
            ),
        p.files@.len() == config.file@[sev_index(severity)]@.len(),
        forall|k: int|
            0 <= k < p.files@.len() ==> file_append_matches(
                #[trigger] p.files@[k],
                config.file@[sev_index(severity)]@[k],
                p.line@,
            ),
        p.fatal_color == config.color@[3],
        config.web@[sev_index(severity)]@.len() == 0 && config.file@[sev_index(severity)]@.len()
            == 0 ==> p.webs@.len() == 0 && p.files@.len() == 0,
{
    let ts = match config.time {
        Time::UTC => now_utc_string(),
        Time::Local => now_local_string(),
    };
    let i: usize = match index(severity) {
        Ok(i) => i,
        Err(_) => 0,
    };
    let trace: String = match config.backtrace[i] {
        Backtrace::Complex => capture_trace(),
        _ => String::new(),
    };
    let p = dispatch_with(config, severity, message, site, ts.as_str(), trace.as_str());
    proof {
        assert(ts@.len() > 0 && p.line@ == rendered_spec(
            ts@,
            message@,
            suffix_spec(
                config.backtrace@[sev_index(severity)],
                site.file@,
                site.line as int,
                site.col as int,
                trace@,
            ),
        ));
    }
    p
}

} // verus!
