//! A severity-leveled log dispatcher.
//!
//! Callers emit an event tagged with one of four severities; the dispatcher
//! fans the event out to the sinks configured for that severity (console,
//! files, webhooks), each independently configured with its own color,
//! console target and backtrace policy. Configurations are built through a
//! chained builder and published wholesale into a configuration store; a
//! dispatch reads one consistent snapshot and computes the full fan-out plan.

pub mod config;
pub mod dispatch;
pub mod store;
pub mod text;

pub use config::Backtrace;
pub use config::Color;
pub use config::Config;
pub use config::ConfigError;
pub use config::Console;
pub use config::Log;
pub use config::Time;
pub use config::WebRequest;
pub use config::WebhookSink;
pub use config::index;
pub use config::new;
pub use store::ConfigStore;
pub use dispatch::CallSite;
pub use dispatch::ConsoleWrite;
pub use dispatch::DispatchPlan;
pub use dispatch::FileAppend;
pub use dispatch::WebSend;
pub use dispatch::console_text;
pub use dispatch::dispatch;
pub use dispatch::dispatch_with;
pub use dispatch::file_failure_report;
pub use dispatch::severity_name;
pub use dispatch::web_failure_report;
