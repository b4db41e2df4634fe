use vstd::prelude::*;

verus! {

/// What the process reports when it exits.
#[derive(Debug, Clone, Copy, PartialEq, Eq, Structural)]
pub enum AppStatusCode {
    Success,
    Error,
}

impl AppStatusCode {
    /// The numeric exit code: zero for success, one for an error.
    pub fn as_code(&self) -> (r: u8)
        ensures
            *self is Success ==> r == 0,
            *self is Error ==> r == 1,
    {
        match self {
            AppStatusCode::Success => 0,
            AppStatusCode::Error => 1,
        }
    }
}

/// What the user asked for on the command line, after the flags are read.
#[derive(Debug)]
pub enum ArgsCommand {
    Boot(Option<String>),
    Interactive,
    Edit,
}

/// The command-line arguments, as plain values: an optional configuration
/// path, the three mode flags, and an optional environment filter.
#[derive(Debug)]
pub struct Args {
    pub configuration_path: Option<String>,
    pub edit: bool,
    pub interactive: bool,
    pub verbose: bool,
    pub environment: Option<String>,
}

impl Args {
    /// Which command the flags select: edit wins over interactive, and with
    /// neither flag the filter, if any, is booted.
    pub fn command(&self) -> (r: ArgsCommand)
        ensures
            self.edit ==> r is Edit,
            !self.edit && self.interactive ==> r is Interactive,
            !self.edit && !self.interactive ==> (r matches ArgsCommand::Boot(env) && env
                == self.environment),
    {
        if self.edit {
            ArgsCommand::Edit
        } else if self.interactive {
            ArgsCommand::Interactive
        } else {
            let environment = match &self.environment {
                Some(name) => Some(name.clone()),
                None => None,
            };
            ArgsCommand::Boot(environment)
        }
    }
}

} // verus!
