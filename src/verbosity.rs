use vstd::prelude::*;

verus! {

/// How much diagnostic output the peer asks for, most verbose first.
#[derive(Debug, Clone, Copy, PartialEq, Eq, Structural)]
pub enum Verbosity {
    Trace,
    Debug,
    Info,
    Warn,
    Error,
}

/// The severity threshold that a log sink is configured with.
#[derive(Debug, Clone, Copy, PartialEq, Eq, Structural)]
pub enum LogLevel {
    Trace,
    Debug,
    Info,
    Warn,
    Error,
}

/// The rank of a level: 0 for the most verbose, 4 for the least.
pub open spec fn level_rank(l: LogLevel) -> nat {
    match l {
        LogLevel::Trace => 0,
        LogLevel::Debug => 1,
        LogLevel::Info => 2,
        LogLevel::Warn => 3,
        LogLevel::Error => 4,
    }
}

/// The rank of a verbosity setting, in the same order as `level_rank`.
pub open spec fn verbosity_rank(v: Verbosity) -> nat {
    match v {
        Verbosity::Trace => 0,
        Verbosity::Debug => 1,
        Verbosity::Info => 2,
        Verbosity::Warn => 3,
        Verbosity::Error => 4,
    }
}

impl Verbosity {
    /// The log level that this verbosity selects: the one of the same name.
    pub fn into_level(self) -> (r: LogLevel)
        ensures
            level_rank(r) == verbosity_rank(self),
    {
        match self {
            Verbosity::Trace => LogLevel::Trace,
            Verbosity::Debug => LogLevel::Debug,
            Verbosity::Info => LogLevel::Info,
            Verbosity::Warn => LogLevel::Warn,
            Verbosity::Error => LogLevel::Error,
        }
    }
}

} // verus!
