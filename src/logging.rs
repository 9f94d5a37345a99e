use vstd::prelude::*;

verus! {

#[verifier::external_type_specification]
#[verifier::external_body]
pub struct ExLevel(log::Level);

#[verifier::external_type_specification]
#[verifier::external_body]
pub struct ExArguments<'a>(std::fmt::Arguments<'a>);

/// Severity of a log message.
#[derive(Debug, Clone, Copy, PartialEq, Eq, Structural)]
pub enum LogLevel {
    Error,
    Warn,
    Info,
    Debug,
}

/// Hands formatted messages at one level to the installed logger.
struct LogWriter {
    level: log::Level,
}

impl LogWriter {
    /// The method that `write!` calls with the formatted message.
    ///
    /// Relies on `log::logger()` and `Log::log`: the record, at this writer's
    /// level, goes to the installed logger, which applies its own filter.
    #[verifier::external_body]
    fn write_fmt(&mut self, args: std::fmt::Arguments) {
        log::logger().log(&log::Record::builder().level(self.level).target("wasmify_rs").args(args).build());
    }
}

/// Relies on the `log` crate's `Level` variants, one for each of ours.
#[verifier::external_body]
fn emit(level: LogLevel, message: &str) {
    let level = match level {
        LogLevel::Error => log::Level::Error,
        LogLevel::Warn => log::Level::Warn,
        LogLevel::Info => log::Level::Info,
        LogLevel::Debug => log::Level::Debug,
    };
    write!(LogWriter { level }, "{}", message);
}

/// Logs an info-level message.
pub fn log_info(message: &str) {
    emit(LogLevel::Info, message);
}

/// Logs a warning-level message.
pub fn log_warn(message: &str) {
    emit(LogLevel::Warn, message);
}

/// Logs an error-level message.
pub fn log_error(message: &str) {
    emit(LogLevel::Error, message);
}

/// Logs a debug-level message.
pub fn log_debug(message: &str) {
    emit(LogLevel::Debug, message);
}

} // verus!
