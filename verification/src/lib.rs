//! A fluent builder for composing and running a single external process.
//!
//! A [`ShellCommand`] accumulates a program name, an ordered argument list,
//! optional environment-variable overrides, and an optional standard-input
//! payload; every builder step consumes the old value and returns a new one.
//! Running a command spawns the process with piped standard streams, writes
//! the optional input, waits for termination, and reports the captured
//! output together with the exit status as a [`ShellCommandOutput`].
use vstd::prelude::*;

pub mod descriptor;
pub mod engine;
pub mod envmap;

pub use descriptor::CmdView;
pub use descriptor::ShellCommand;
pub use engine::ShellCommandOutput;

verus! {

/// A one-line description of what this library is for.
pub fn about() -> (r: String)
    ensures
        r@ == "A simple library to run shell commands in rust programs"@,
{
    let abt_str = "A simple library to run shell commands in rust programs";
    abt_str.to_owned()
}

} // verus!
