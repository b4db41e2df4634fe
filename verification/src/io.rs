use vstd::prelude::*;
use std::io::Write;

use crate::intent::CommandIntent;

verus! {

/// Why an intent could not be carried out: the operating system refused to
/// create or open what was asked, and this carries its words.
#[derive(Debug, Clone)]
pub struct ExecError {
    pub message: String,
}

impl ExecError {
    /// Wraps the description of an operating-system failure.
    pub fn new(message: String) -> (r: Self)
        ensures
            r.message == message,
    {
        ExecError { message }
    }
}

/// The one capability that turns a command intent into an actual
/// operating-system process.  It is injected into the boot path, so a
/// recording or failing stand-in can replace the real spawning one; nothing
/// can be promised of what an arbitrary implementation returns.
pub trait CommandExecutor {
    /// Performs exactly one operating-system effect for the intent and
    /// reports success, or the failure the operating system gave.
    fn execute(&self, intent: CommandIntent) -> Result<(), ExecError>;
}

/// Relies on std::io::Stdout's Write implementation: prints the text,
/// followed by one line break, on standard output.
#[verifier::external_body]
pub fn emit_line(message: &String) {
    let mut out = std::io::stdout();
    let _ = writeln!(out, "{}", message);
}

} // verus!
