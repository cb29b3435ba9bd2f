//! The severity model and the configuration record with its builder.
//!
//! A configuration holds one setting record per severity, kept in parallel
//! sequences of length four that are indexed by the severity's dense index.
//! The builder mutates a configuration value through chained calls: a
//! severity must be selected with `set_type` before any per-severity setter
//! may run, and the finished value is published wholesale into a
//! [`crate::store::ConfigStore`].

use vstd::prelude::*;

verus! {

/// The four severities of a log event, plus the transient sentinel used by
/// the builder while no severity has been selected yet. The sentinel never
/// appears in a dispatched event.
#[derive(Clone, Copy, PartialEq, Eq, Structural, Debug)]
pub enum Log {
    Info,
    Warn,
    Error,
    Fatal,
    _None,
}

/// How much of the call context a severity prints after the message.
#[derive(Clone, Copy, PartialEq, Eq, Structural, Debug)]
pub enum Backtrace {
    /// No suffix at all.
    _None,
    /// The file, line and column of the call site.
    Simple,
    /// A full captured stack trace on the following lines.
    Complex,
}

/// The global time-zone mode for timestamps.
#[derive(Clone, Copy, PartialEq, Eq, Structural, Debug)]
pub enum Time {
    UTC,
    Local,
}

/// The console target of one severity.
#[derive(Clone, Copy, PartialEq, Eq, Structural, Debug)]
pub enum Console {
    _None,
    Stdout,
    Stderr,
}

/// An RGB triple used to colorize console output; purely cosmetic.
#[derive(Clone, Copy, PartialEq, Eq, Structural, Debug)]
pub struct Color {
    pub r: u8,
    pub g: u8,
    pub b: u8,
}

/// The errors the builder reports at configuration time.
#[derive(Clone, Copy, PartialEq, Eq, Structural, Debug)]
pub enum ConfigError {
    /// A per-severity setter was called before any severity was selected.
    UnselectedSeverityError,
    /// The severity sentinel was passed to `set_type`.
    InvalidSeverityError,
}

/// An HTTP request template for a webhook sink: the parts of the request
/// that the dispatcher hands to the transport, as plain values.
#[derive(PartialEq, Debug)]
pub struct WebRequest {
    pub method: String,
    pub url: String,
    pub headers: Vec<(String, String)>,
}

/// A webhook sink: a request template bound to a message-format template
/// whose placeholder receives the rendered line.
#[derive(PartialEq, Debug)]
pub struct WebhookSink {
    pub request: WebRequest,
    pub format: String,
}

/// The full configuration: one global time-zone mode plus, per severity,
/// a color, a console target, a backtrace policy, an ordered list of file
/// paths and an ordered list of webhook sinks. The per-severity sequences
/// always have length four and are indexed by [`sev_index`].
pub struct Config {
    pub time: Time,
    pub color: Vec<Color>,
    pub console: Vec<Console>,
    pub web: Vec<Vec<WebhookSink>>,
    pub file: Vec<Vec<String>>,
    pub backtrace: Vec<Backtrace>,
    /// The builder's transient selection; not read by the dispatcher.
    pub working_on: Log,
}

/// The dense index of a severity: all per-severity settings live in
/// sequences of length four, indexed by this. The sentinel has no slot.
pub open spec fn sev_index(l: Log) -> int {
    match l {
        Log::Info => 0,
        Log::Warn => 1,
        Log::Error => 2,
        Log::Fatal => 3,
        Log::_None => 4,
    }
}

/// Resolves the dense index of a selected severity; the sentinel has no
/// index and is rejected.
pub fn index(working_on: Log) -> (r: Result<usize, ConfigError>)
    ensures
        working_on is _None <==> r is Err,
        r is Err ==> r->Err_0 == ConfigError::UnselectedSeverityError,
        r is Ok ==> r->Ok_0 == sev_index(working_on),
{
    match working_on {
        Log::Info => Ok(0),
        Log::Warn => Ok(1),
        Log::Error => Ok(2),
        Log::Fatal => Ok(3),
        Log::_None => Err(ConfigError::UnselectedSeverityError),
    }
}

impl Config {
    /// Well-formedness: every per-severity sequence has exactly one slot
    /// for each of the four severities.
    pub open spec fn wf(self) -> bool {
        &&& self.color@.len() == 4
        &&& self.console@.len() == 4
        &&& self.web@.len() == 4
        &&& self.file@.len() == 4
        &&& self.backtrace@.len() == 4
    }

    /// The severity the builder is currently working on; the sentinel when
    /// none has been selected yet.
    pub open spec fn selected(self) -> Log {
        self.working_on
    }
}

/// A fresh configuration with the default settings: local time, cyan /
/// pale-orange / orange / red colors, console on standard output for Info
/// and standard error for the rest, no backtrace for Info and Warn, a
/// simple backtrace for Error, a complex one for Fatal, and no file or
/// webhook sinks; no severity is selected yet.
pub fn new() -> (c: Config)
    ensures
        c.wf(),
        c.time == Time::Local,
        c.color@ == seq![
            (Color { r: 0, g: 255, b: 255 }),
            (Color { r: 255, g: 215, b: 185 }),
            (Color { r: 255, g: 100, b: 0 }),
            (Color { r: 255, g: 0, b: 0 }),
        ],
        c.console@ == seq![Console::Stdout, Console::Stderr, Console::Stderr, Console::Stderr],
        c.backtrace@ == seq![Backtrace::_None, Backtrace::_None, Backtrace::Simple, Backtrace::Complex],
        forall|i: int| 0 <= i < 4 ==> #[trigger] c.web@[i]@ =~= Seq::<WebhookSink>::empty(),
        forall|i: int| 0 <= i < 4 ==> #[trigger] c.file@[i]@ =~= Seq::<String>::empty(),
        c.selected() is _None,
{
    let mut color: Vec<Color> = Vec::new();
    color.push(Color { r: 0, g: 255, b: 255 });
    color.push(Color { r: 255, g: 215, b: 185 });
    color.push(Color { r: 255, g: 100, b: 0 });
    color.push(Color { r: 255, g: 0, b: 0 });
    let mut console: Vec<Console> = Vec::new();
    console.push(Console::Stdout);
    console.push(Console::Stderr);
    console.push(Console::Stderr);
    console.push(Console::Stderr);
    let mut backtrace: Vec<Backtrace> = Vec::new();
    backtrace.push(Backtrace::_None);
    backtrace.push(Backtrace::_None);
    backtrace.push(Backtrace::Simple);
    backtrace.push(Backtrace::Complex);
    let mut web: Vec<Vec<WebhookSink>> = Vec::new();
    web.push(Vec::new());
    web.push(Vec::new());
    web.push(Vec::new());
    web.push(Vec::new());
    let mut file: Vec<Vec<String>> = Vec::new();
    file.push(Vec::new());
    file.push(Vec::new());
    file.push(Vec::new());
    file.push(Vec::new());
    proof {
        assert(color@ =~= seq![
            (Color { r: 0, g: 255, b: 255 }),
            (Color { r: 255, g: 215, b: 185 }),
            (Color { r: 255, g: 100, b: 0 }),
            (Color { r: 255, g: 0, b: 0 }),
        ]);
        assert(console@ =~= seq![Console::Stdout, Console::Stderr, Console::Stderr, Console::Stderr]);
        assert(backtrace@ =~= seq![
            Backtrace::_None,
            Backtrace::_None,
            Backtrace::Simple,
            Backtrace::Complex,
        ]);
    }
    Config { time: Time::Local, color, console, web, file, backtrace, working_on: Log::_None }
}

impl Config {
    /// Sets the global time-zone mode; this is not per-severity, so no
    /// selection is needed and the call cannot fail.
    pub fn time(self, time: Time) -> (r: Config)
        ensures
            r.time == time,
            r.color == self.color,
            r.console == self.console,
            r.web == self.web,
            r.file == self.file,
            r.backtrace == self.backtrace,
            r.selected() == self.selected(),
    {
        Config { time, ..self }
    }

    /// Selects the severity that the following per-severity setters apply
    /// to; selecting the sentinel is rejected.
    pub fn set_type(self, log: Log) -> (r: Result<Config, ConfigError>)
        ensures
            log is _None <==> r is Err,
            r is Err ==> r->Err_0 == ConfigError::InvalidSeverityError,
            r is Ok ==> ({
                let c = r->Ok_0;
                &&& c.time == self.time
                &&& c.color == self.color
                &&& c.console == self.console
                &&& c.web == self.web
                &&& c.file == self.file
                &&& c.backtrace == self.backtrace
                &&& c.selected() == log
            }),
    {
        match log {
            Log::_None => Err(ConfigError::InvalidSeverityError),
            _ => Ok(Config { working_on: log, ..self }),
        }
    }

    /// Sets the console color of the selected severity; fails if no
    /// severity has been selected.
    pub fn color(self, color: Color) -> (r: Result<Config, ConfigError>)
        requires
            self.wf(),
        ensures
            self.selected() is _None <==> r is Err,
            r is Err ==> r->Err_0 == ConfigError::UnselectedSeverityError,
            r is Ok ==> ({
                let c = r->Ok_0;
                &&& c.wf()
                &&& c.time == self.time
                &&& c.color@ == self.color@.update(sev_index(self.selected()), color)
                &&& c.console == self.console
                &&& c.web == self.web
                &&& c.file == self.file
                &&& c.backtrace == self.backtrace
                &&& c.selected() == self.selected()
            }),
    {
        match index(self.working_on) {
            Err(e) => Err(e),
            Ok(i) => {
                let mut c = self;
                c.color[i] = color;
                Ok(c)
            },
        }
    }

    /// Sets the backtrace policy of the selected severity; fails if no
    /// severity has been selected.
    pub fn backtrace(self, backtrace: Backtrace) -> (r: Result<Config, ConfigError>)
        requires
            self.wf(),
        ensures
            self.selected() is _None <==> r is Err,
            r is Err ==> r->Err_0 == ConfigError::UnselectedSeverityError,
            r is Ok ==> ({
                let c = r->Ok_0;
                &&& c.wf()
                &&& c.time == self.time
                &&& c.color == self.color
                &&& c.console == self.console
                &&& c.web == self.web
                &&& c.file == self.file
                &&& c.backtrace@ == self.backtrace@.update(sev_index(self.selected()), backtrace)
                &&& c.selected() == self.selected()
            }),
    {
        match index(self.working_on) {
            Err(e) => Err(e),
            Ok(i) => {
                let mut c = self;
                c.backtrace[i] = backtrace;
                Ok(c)
            },
        }
    }

    /// Sets the console target of the selected severity; fails if no
    /// severity has been selected.
    pub fn console(self, console: Console) -> (r: Result<Config, ConfigError>)
        requires
            self.wf(),
        ensures
            self.selected() is _None <==> r is Err,
            r is Err ==> r->Err_0 == ConfigError::UnselectedSeverityError,
            r is Ok ==> ({
                let c = r->Ok_0;
                &&& c.wf()
                &&& c.time == self.time
                &&& c.color == self.color
                &&& c.console@ == self.console@.update(sev_index(self.selected()), console)
                &&& c.web == self.web
                &&& c.file == self.file
                &&& c.backtrace == self.backtrace
                &&& c.selected() == self.selected()
            }),
    {
        match index(self.working_on) {
            Err(e) => Err(e),
            Ok(i) => {
                let mut c = self;
                c.console[i] = console;
                Ok(c)
            },
        }
    }

    /// Appends a webhook sink to the selected severity: every event of
    /// that severity will be sent through `request`, with the rendered
    /// line substituted into `format` at its placeholder. Fails if no
    /// severity has been selected.
    pub fn web(self, format: &str, request: WebRequest) -> (r: Result<Config, ConfigError>)
        requires
            self.wf(),
        ensures
            self.selected() is _None <==> r is Err,
            r is Err ==> r->Err_0 == ConfigError::UnselectedSeverityError,
            r is Ok ==> ({
                let c = r->Ok_0;
                let i = sev_index(self.selected());
                &&& c.wf()
                &&& c.time == self.time
                &&& c.color == self.color
                &&& c.console == self.console
                &&& c.file == self.file
                &&& c.backtrace == self.backtrace
                &&& c.selected() == self.selected()
                &&& c.web@[i]@.len() == self.web@[i]@.len() + 1
                &&& forall|j: int| 0 <= j < self.web@[i]@.len()
                    ==> #[trigger] c.web@[i]@[j] == self.web@[i]@[j]
                &&& c.web@[i]@.last().request == request
                &&& c.web@[i]@.last().format@ == format@
                &&& forall|k: int| 0 <= k < 4 && k != i ==> #[trigger] c.web@[k] == self.web@[k]
            }),
    {
        match index(self.working_on) {
            Err(e) => Err(e),
            Ok(i) => {
                let mut c = self;
                let mut sinks = c.web.remove(i);
                sinks.push(WebhookSink { request, format: format.to_string() });
                c.web.insert(i, sinks);
                proof {
                    assert(c.web@ =~= self.web@.update(i as int, c.web@[i as int]));
                }
                Ok(c)
            },
        }
    }

    /// Appends a file sink to the selected severity: every event of that
    /// severity will be appended to the file at `file`, which is created
    /// if absent. Fails if no severity has been selected.
    pub fn file(self, file: &str) -> (r: Result<Config, ConfigError>)
        requires
            self.wf(),
        ensures
            self.selected() is _None <==> r is Err,
            r is Err ==> r->Err_0 == ConfigError::UnselectedSeverityError,
            r is Ok ==> ({
                let c = r->Ok_0;
                let i = sev_index(self.selected());
                &&& c.wf()
                &&& c.time == self.time
                &&& c.color == self.color
                &&& c.console == self.console
                &&& c.web == self.web
                &&& c.backtrace == self.backtrace
                &&& c.selected() == self.selected()
                &&& c.file@[i]@.len() == self.file@[i]@.len() + 1
                &&& forall|j: int| 0 <= j < self.file@[i]@.len()
                    ==> #[trigger] c.file@[i]@[j] == self.file@[i]@[j]
                &&& c.file@[i]@.last()@ == file@
                &&& forall|k: int| 0 <= k < 4 && k != i ==> #[trigger] c.file@[k] == self.file@[k]
            }),
    {
        match index(self.working_on) {
            Err(e) => Err(e),
            Ok(i) => {
                let mut c = self;
                let mut sinks = c.file.remove(i);
                sinks.push(file.to_string());
                c.file.insert(i, sinks);
                proof {
                    assert(c.file@ =~= self.file@.update(i as int, c.file@[i as int]));
                }
                Ok(c)
            },
        }
    }
}

} // verus!
