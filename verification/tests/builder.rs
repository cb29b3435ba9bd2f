use log4rust::Backtrace;
use log4rust::Color;
use log4rust::ConfigError;
use log4rust::ConfigStore;
use log4rust::Console;
use log4rust::Log;
use log4rust::Time;
use log4rust::WebRequest;
use log4rust::new;

#[test]
fn defaults_are_exact() {
    let c = new();
    assert_eq!(c.time, Time::Local);
    assert_eq!(
        c.color,
        vec![
            Color { r: 0, g: 255, b: 255 },
            Color { r: 255, g: 215, b: 185 },
            Color { r: 255, g: 100, b: 0 },
            Color { r: 255, g: 0, b: 0 },
        ]
    );
    assert_eq!(
        c.console,
        vec![Console::Stdout, Console::Stderr, Console::Stderr, Console::Stderr]
    );
    assert_eq!(
        c.backtrace,
        vec![Backtrace::_None, Backtrace::_None, Backtrace::Simple, Backtrace::Complex]
    );
    for i in 0..4 {
        assert!(c.web[i].is_empty());
        assert!(c.file[i].is_empty());
    }
}

#[test]
fn color_before_select_fails() {
    let r = new().color(Color { r: 1, g: 2, b: 3 });
    assert!(matches!(r, Err(ConfigError::UnselectedSeverityError)));
}

#[test]
fn backtrace_before_select_fails() {
    let r = new().backtrace(Backtrace::Simple);
    assert!(matches!(r, Err(ConfigError::UnselectedSeverityError)));
}

#[test]
fn console_before_select_fails() {
    let r = new().console(Console::Stdout);
    assert!(matches!(r, Err(ConfigError::UnselectedSeverityError)));
}

#[test]
fn file_before_select_fails() {
    let r = new().file("a.txt");
    assert!(matches!(r, Err(ConfigError::UnselectedSeverityError)));
}

#[test]
fn web_before_select_fails() {
    let req = WebRequest {
        method: "POST".to_string(),
        url: "http://localhost/hook".to_string(),
        headers: vec![],
    };
    let r = new().web("{}", req);
    assert!(matches!(r, Err(ConfigError::UnselectedSeverityError)));
}

#[test]
fn select_sentinel_fails() {
    let r = new().set_type(Log::_None);
    assert!(matches!(r, Err(ConfigError::InvalidSeverityError)));
}

#[test]
fn setters_apply_to_selected_severity_only() {
    let c = new()
        .set_type(Log::Warn)
        .unwrap()
        .color(Color { r: 9, g: 8, b: 7 })
        .unwrap()
        .console(Console::_None)
        .unwrap()
        .backtrace(Backtrace::Complex)
        .unwrap();
    assert_eq!(c.color[1], Color { r: 9, g: 8, b: 7 });
    assert_eq!(c.color[0], Color { r: 0, g: 255, b: 255 });
    assert_eq!(c.color[2], Color { r: 255, g: 100, b: 0 });
    assert_eq!(c.console[1], Console::_None);
    assert_eq!(c.console[0], Console::Stdout);
    assert_eq!(c.backtrace[1], Backtrace::Complex);
    assert_eq!(c.backtrace[3], Backtrace::Complex);
}

#[test]
fn selection_survives_until_next_select() {
    let c = new()
        .set_type(Log::Info)
        .unwrap()
        .file("a.txt")
        .unwrap()
        .file("b.txt")
        .unwrap()
        .set_type(Log::Fatal)
        .unwrap()
        .file("c.txt")
        .unwrap();
    assert_eq!(c.file[0], vec!["a.txt".to_string(), "b.txt".to_string()]);
    assert_eq!(c.file[3], vec!["c.txt".to_string()]);
    assert!(c.file[1].is_empty());
    assert!(c.file[2].is_empty());
}

#[test]
fn publish_and_read_back_round_trip() {
    let req = WebRequest {
        method: "POST".to_string(),
        url: "http://localhost/hook".to_string(),
        headers: vec![("content-type".to_string(), "text/plain".to_string())],
    };
    let c = new()
        .time(Time::UTC)
        .set_type(Log::Error)
        .unwrap()
        .color(Color { r: 10, g: 20, b: 30 })
        .unwrap()
        .console(Console::Stdout)
        .unwrap()
        .backtrace(Backtrace::_None)
        .unwrap()
        .file("a.txt")
        .unwrap()
        .file("b.txt")
        .unwrap()
        .web("line: {}", req)
        .unwrap();
    let mut store = ConfigStore::start_with(new());
    c.save(&mut store);
    let got = store.read();
    assert_eq!(got.time, Time::UTC);
    assert_eq!(got.color[2], Color { r: 10, g: 20, b: 30 });
    assert_eq!(got.console[2], Console::Stdout);
    assert_eq!(got.backtrace[2], Backtrace::_None);
    assert_eq!(got.file[2], vec!["a.txt".to_string(), "b.txt".to_string()]);
    assert_eq!(got.web[2].len(), 1);
    assert_eq!(got.web[2][0].format, "line: {}");
    assert_eq!(got.web[2][0].request.method, "POST");
    assert_eq!(got.web[2][0].request.url, "http://localhost/hook");
    assert_eq!(
        got.web[2][0].request.headers,
        vec![("content-type".to_string(), "text/plain".to_string())]
    );
    assert_eq!(got.color[0], Color { r: 0, g: 255, b: 255 });
    assert_eq!(got.console[0], Console::Stdout);
}

#[test]
fn index_resolves_severities() {
    assert_eq!(log4rust::index(Log::Info), Ok(0));
    assert_eq!(log4rust::index(Log::Warn), Ok(1));
    assert_eq!(log4rust::index(Log::Error), Ok(2));
    assert_eq!(log4rust::index(Log::Fatal), Ok(3));
    assert!(matches!(
        log4rust::index(Log::_None),
        Err(ConfigError::UnselectedSeverityError)
    ));
}
