//! How much the server says about what it does.

use vstd::prelude::*;

verus! {

/// The least severe events that are still logged.
#[derive(Debug, Clone, Copy, PartialEq, Eq, Structural)]
pub enum LevelFilter {
    /// Nothing is logged.
    OFF,
    /// Warnings, and what is worse.
    WARN,
    /// What happens in the ordinary course of things, too.
    INFO,
    /// What helps in finding a fault, too.
    DEBUG,
    /// Everything.
    TRACE,
}

/// The level asked for on the command line: `verbose` is how often `-v` was given, `quiet`
/// whether `-q` was, which silences everything.
pub fn log_level(verbose: u8, quiet: bool) -> (level: LevelFilter)
    ensures
        level == if quiet {
            LevelFilter::OFF
        } else if verbose == 0 {
            LevelFilter::WARN
        } else if verbose == 1 {
            LevelFilter::INFO
        } else if verbose == 2 {
            LevelFilter::DEBUG
        } else {
            LevelFilter::TRACE
        },
{
    if quiet {
        LevelFilter::OFF
    } else {
        match verbose {
            0 => LevelFilter::WARN,
            1 => LevelFilter::INFO,
            2 => LevelFilter::DEBUG,
            _ => LevelFilter::TRACE,
        }
    }
}

} // verus!
