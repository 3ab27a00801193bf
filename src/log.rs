//! Logging policy of the supervisor: which records are written.
use vstd::prelude::*;

verus! {

/// Severity of a log record, most severe first.
#[derive(Debug, Clone, Copy, PartialEq, Eq, Structural)]
pub enum Level {
    Error,
    Warn,
    Info,
    Debug,
    Trace,
}

/// Rank of a level: a more severe level has a smaller rank.
pub open spec fn rank(l: Level) -> nat {
    match l {
        Level::Error => 1,
        Level::Warn => 2,
        Level::Info => 3,
        Level::Debug => 4,
        Level::Trace => 5,
    }
}

/// The most verbose level that the supervisor writes.
pub const MAX_LEVEL: Level = Level::Info;

/// Rank of a level, as an integer.
fn level_rank(l: Level) -> (r: u8)
    ensures
        r == rank(l),
{
    match l {
        Level::Error => 1,
        Level::Warn => 2,
        Level::Info => 3,
        Level::Debug => 4,
        Level::Trace => 5,
    }
}

/// The logger of the supervisor.
#[derive(Debug, Clone, Copy)]
pub struct Logger;

impl Logger {
    /// Whether a record of this level is written: Info and more severe ones are.
    pub fn enabled(&self, level: Level) -> (r: bool)
        ensures
            r == (rank(level) <= rank(MAX_LEVEL)),
    {
        level_rank(level) <= level_rank(MAX_LEVEL)
    }
}

/// Finishes logging setup after registering the logger: on success the
/// maximum level to enable is Info, on failure the registration error is
/// passed on.
pub fn init<E>(registered: Result<(), E>) -> (r: Result<Level, E>)
    ensures
        r == match registered {
            Ok(()) => Ok::<Level, E>(MAX_LEVEL),
            Err(e) => Err::<Level, E>(e),
        },
{
    match registered {
        Ok(()) => Ok(MAX_LEVEL),
        Err(e) => Err(e),
    }
}

} // verus!
