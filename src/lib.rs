//! Relays timestamped log events to a single, replaceable sink.
pub mod entry;
pub mod level;
pub mod relay;
pub mod start;

pub use entry::LogEntry;
pub use level::LogLevel;
pub use relay::{log, LogSink, Relay};
