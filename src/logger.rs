//! Logging configuration: which records the host's logger keeps, and the
//! installation of the global level filter.

use vstd::prelude::*;

verus! {

#[verifier::external_type_specification]
#[verifier::external_body]
pub struct ExSetLoggerError(log::SetLoggerError);

/// How verbose a record is, from the most severe to the most detailed.
#[derive(PartialEq, Eq, Structural, Clone, Copy, Debug)]
pub enum Verbosity {
    Error,
    Warn,
    Info,
    Debug,
    Trace,
}

/// The position of a verbosity on the scale, `Error` first.
pub open spec fn rank(v: Verbosity) -> nat {
    match v {
        Verbosity::Error => 1,
        Verbosity::Warn => 2,
        Verbosity::Info => 3,
        Verbosity::Debug => 4,
        Verbosity::Trace => 5,
    }
}

/// The most detailed records the host's logger keeps.
pub const MAX_VERBOSITY: Verbosity = Verbosity::Debug;

/// Whether the host's logger keeps a record of verbosity `v`: everything up
/// to and including debug records.
pub fn enabled(v: Verbosity) -> (r: bool)
    ensures
        r == (rank(v) <= rank(Verbosity::Debug)),
{
    match v {
        Verbosity::Trace => false,
        _ => true,
    }
}

/// Relies on `log::set_max_level`: sets the global filter to the level
/// matching `v`; it returns nothing.
#[verifier::external_body]
fn set_max_level(v: Verbosity) {
    let level = match v {
        Verbosity::Error => log::LevelFilter::Error,
        Verbosity::Warn => log::LevelFilter::Warn,
        Verbosity::Info => log::LevelFilter::Info,
        Verbosity::Debug => log::LevelFilter::Debug,
        Verbosity::Trace => log::LevelFilter::Trace,
    };
    log::set_max_level(level)
}

/// Completes the logger's installation: `installed` is what installing the
/// host's logger as the global logger returned. On success the global filter
/// is raised to debug records; either way that outcome is handed back.
pub fn init(installed: Result<(), log::SetLoggerError>) -> (r: Result<(), log::SetLoggerError>)
    ensures
        r == installed,
{
    if installed.is_ok() {
        set_max_level(MAX_VERBOSITY);
    }
    installed
}

} // verus!
