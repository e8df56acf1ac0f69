//! The log level that the quiet flag and the verbosity count select.

use vstd::prelude::*;

verus! {

/// How much diagnostic output is wanted, from least (`Warn`) to most
/// (`Trace`).
#[derive(Clone, Copy, Debug, PartialEq, Eq, Structural, PartialOrd, Ord, Hash)]
pub enum LogLevel {
    Warn,
    Info,
    Debug,
    Trace,
}

impl LogLevel {
    /// The level's place in the order: 0 for `Warn` up to 3 for `Trace`.
    pub open spec fn rank(self) -> nat {
        match self {
            LogLevel::Warn => 0,
            LogLevel::Info => 1,
            LogLevel::Debug => 2,
            LogLevel::Trace => 3,
        }
    }

    /// The level's place in the order, as a number.
    pub fn severity(&self) -> (r: u8)
        ensures
            r == self.rank(),
    {
        match self {
            LogLevel::Warn => 0,
            LogLevel::Info => 1,
            LogLevel::Debug => 2,
            LogLevel::Trace => 3,
        }
    }
}

impl Default for LogLevel {
    /// The level used when nothing is asked for: `Info`.
    fn default() -> (r: LogLevel)
        ensures
            r == LogLevel::Info,
    {
        LogLevel::Info
    }
}

/// The level selected by a quiet flag and a verbosity count.
pub open spec fn log_level_of(quiet: bool, verbose_count: nat) -> LogLevel {
    if quiet {
        LogLevel::Warn
    } else if verbose_count == 0 {
        LogLevel::Info
    } else if verbose_count == 1 {
        LogLevel::Debug
    } else {
        LogLevel::Trace
    }
}

/// Selects the log level. The quiet flag overrides the count; without it
/// the count raises the level from `Info` one step at a time, up to
/// `Trace`.
pub fn resolve_log_level(quiet: bool, verbose_count: u64) -> (r: LogLevel)
    ensures
        r == log_level_of(quiet, verbose_count as nat),
{
    if quiet {
        LogLevel::Warn
    } else if verbose_count == 0 {
        LogLevel::Info
    } else if verbose_count == 1 {
        LogLevel::Debug
    } else {
        LogLevel::Trace
    }
}

/// Quiet always wins: with the quiet flag set the level is `Warn`,
/// whatever the verbosity count.
pub proof fn lemma_quiet_wins(verbose_count: nat)
    ensures
        log_level_of(true, verbose_count) == LogLevel::Warn,
{
}

/// Without the quiet flag a larger count never selects a lower level, the
/// level never falls below the default, and from two on it stays at
/// `Trace`.
pub proof fn lemma_verbosity_monotone(a: nat, b: nat)
    requires
        a <= b,
    ensures
        log_level_of(false, a).rank() <= log_level_of(false, b).rank(),
        log_level_of(false, a).rank() >= LogLevel::Info.rank(),
        a >= 2 ==> log_level_of(false, a) == LogLevel::Trace,
{
}

} // verus!
