//! A launcher for named working environments: each environment is an
//! ordered list of declarative actions (run a program, open a file, a URL,
//! an editor or the IDE, show a message).  A variable-resolution engine
//! substitutes `${NAME}` and `%NAME%` placeholders throughout the
//! configuration before anything runs; a platform-aware resolution layer
//! picks concrete executables from configured overrides with per-platform
//! fallbacks; and every action is first translated into an abstract command
//! intent, which an injected executor capability then turns into exactly
//! one operating-system effect.

use vstd::prelude::*;

pub mod actions;
pub mod cli;
pub mod configuration;
pub mod context;
pub mod environment;
pub mod io;
pub mod intent;
pub mod resolve;
pub mod stateful_list;
pub mod system;
pub mod text;

verus! {

/// The text shown when the program starts: a small piece of ASCII art
/// spelling the program's name, followed by its version.
pub open spec fn banner_text() -> Seq<char> {
    "\n    __    __  _  \n  /'__`\\ /\\ \\/'\\ \n /\\ \\L\\ \\\\/>  </ \n \\ \\___, \\/\\_/\\_\\\n  \\/___/\\ \\//\\/_/\n       \\ \\_\\     \n        \\/_/   \n\n   v. 0.1.0\n\n   "@
}

/// Returns the start-up banner.
pub fn banner() -> (r: String)
    ensures
        r@ == banner_text(),
{
    let s: &str = "\n    __    __  _  \n  /'__`\\ /\\ \\/'\\ \n /\\ \\L\\ \\\\/>  </ \n \\ \\___, \\/\\_/\\_\\\n  \\/___/\\ \\//\\/_/\n       \\ \\_\\     \n        \\/_/   \n\n   v. 0.1.0\n\n   ";
    s.to_owned()
}

} // verus!
