use log4rust::Backtrace;
use log4rust::CallSite;
use log4rust::Color;
use log4rust::Console;
use log4rust::Log;
use log4rust::WebRequest;
use log4rust::console_text;
use log4rust::dispatch;
use log4rust::dispatch_with;
use log4rust::file_failure_report;
use log4rust::new;
use log4rust::severity_name;
use log4rust::web_failure_report;

fn site() -> CallSite {
    CallSite { file: "main.rs".to_string(), line: 10, col: 5 }
}

#[test]
fn no_sinks_means_console_only() {
    let c = new();
    for severity in [Log::Info, Log::Warn, Log::Error, Log::Fatal] {
        let p = dispatch_with(&c, severity, "m", &site(), "TS", "");
        assert!(p.webs.is_empty());
        assert!(p.files.is_empty());
        assert!(p.console.is_some());
    }
}

#[test]
fn default_error_dispatch_scenario() {
    let c = new();
    let p = dispatch_with(&c, Log::Error, "disk full", &site(), "TS", "");
    assert_eq!(p.line, "[TS] disk full (main.rs:10:5)");
    let cw = p.console.expect("Error goes to a console stream by default");
    assert!(cw.stderr);
    assert_eq!(cw.color, Color { r: 255, g: 100, b: 0 });
    assert!(p.webs.is_empty());
    assert!(p.files.is_empty());
}

#[test]
fn two_file_sinks_get_the_same_line() {
    let c = new()
        .set_type(Log::Info)
        .unwrap()
        .file("a.txt")
        .unwrap()
        .file("b.txt")
        .unwrap();
    let p = dispatch_with(&c, Log::Info, "x", &site(), "TS", "");
    assert_eq!(p.line, "[TS] x");
    assert_eq!(p.files.len(), 2);
    assert_eq!(p.files[0].path, "a.txt");
    assert_eq!(p.files[1].path, "b.txt");
    assert_eq!(p.files[0].line, p.line);
    assert_eq!(p.files[1].line, p.line);
    let cw = p.console.expect("Info goes to standard output by default");
    assert!(!cw.stderr);
}

#[test]
fn webhook_and_file_sinks_are_both_planned() {
    let req = WebRequest {
        method: "POST".to_string(),
        url: "http://localhost:9/unreachable".to_string(),
        headers: vec![],
    };
    let c = new()
        .set_type(Log::Fatal)
        .unwrap()
        .backtrace(Backtrace::_None)
        .unwrap()
        .web("hook: {}", req)
        .unwrap()
        .file("fatal.txt")
        .unwrap();
    let p = dispatch_with(&c, Log::Fatal, "y", &site(), "TS", "");
    assert_eq!(p.line, "[TS] y");
    assert_eq!(p.webs.len(), 1);
    assert_eq!(p.webs[0].body, "hook: [TS] y");
    assert_eq!(p.webs[0].request.url, "http://localhost:9/unreachable");
    assert_eq!(p.files.len(), 1);
    assert_eq!(p.files[0].path, "fatal.txt");
    assert_eq!(p.files[0].line, "[TS] y");
    assert_eq!(p.fatal_color, Color { r: 255, g: 0, b: 0 });
}

#[test]
fn complex_policy_appends_trace_on_new_line() {
    let c = new();
    let p = dispatch_with(&c, Log::Fatal, "y", &site(), "TS", "TRACE");
    assert_eq!(p.line, "[TS] y\nTRACE");
}

#[test]
fn console_target_none_disables_console() {
    let c = new().set_type(Log::Warn).unwrap().console(Console::_None).unwrap();
    let p = dispatch_with(&c, Log::Warn, "w", &site(), "TS", "");
    assert!(p.console.is_none());
}

#[test]
fn dispatch_takes_a_real_timestamp() {
    let c = new();
    let p = dispatch(&c, Log::Info, "hello", &site());
    assert!(p.line.starts_with('['));
    assert!(p.line.contains("] hello"));
    assert!(p.line.len() > "[] hello".len());
    assert!(p.webs.is_empty());
    assert!(p.files.is_empty());
}

#[test]
fn dispatch_simple_backtrace_names_the_call_site() {
    let c = new();
    let p = dispatch(&c, Log::Error, "disk full", &site());
    assert!(p.line.ends_with(" (main.rs:10:5)"));
    assert!(p.line.contains("] disk full (main.rs:10:5)"));
}

#[test]
fn dispatch_complex_policy_captures_a_trace() {
    let c = new();
    let p = dispatch(&c, Log::Fatal, "y", &site());
    assert!(p.line.starts_with('['));
    assert!(p.line.contains("] y\n"));
}

#[test]
fn dispatch_utc_mode_takes_a_timestamp() {
    let c = new().time(log4rust::Time::UTC);
    let p = dispatch(&c, Log::Warn, "w", &site());
    assert!(p.line.starts_with('['));
    assert!(p.line.contains("] w"));
    assert!(p.line.len() > "[] w".len());
}

#[test]
fn console_text_keeps_the_line() {
    let line = "[TS] hello";
    let shown = console_text(line, Color { r: 255, g: 100, b: 0 });
    assert!(shown.contains(line));
}

#[test]
fn severity_names() {
    assert_eq!(severity_name(Log::Info), "Info");
    assert_eq!(severity_name(Log::Warn), "Warn");
    assert_eq!(severity_name(Log::Error), "Error");
    assert_eq!(severity_name(Log::Fatal), "Fatal");
}

#[test]
fn failure_reports_are_exact() {
    assert_eq!(
        web_failure_report(Log::Fatal, "L", "D"),
        "Failed to send a http request as a Fatal and wanted to send 'L', Request error: D"
    );
    assert_eq!(
        file_failure_report("a.txt", Log::Info, "L", "D"),
        "Couldn't write to file a.txt, wanted to write 'L' as a Info, error: D"
    );
}
