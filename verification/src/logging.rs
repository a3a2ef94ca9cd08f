use vstd::prelude::*;

verus! {

/// A structured-logging handle injected into the components that report
/// recoverable conditions. The embedding program decides where the lines go.
pub trait Logger {
    /// A tolerated condition worth noting (a skipped event, for instance).
    fn warn(&mut self, message: &str);

    /// A failure that does not stop the surrounding loop (a task that ended
    /// with an error, for instance).
    fn error(&mut self, message: &str);
}

/// A logger that drops every line.
pub struct NoopLogger;

impl Logger for NoopLogger {
    fn warn(&mut self, message: &str) {
    }

    fn error(&mut self, message: &str) {
    }
}

} // verus!
