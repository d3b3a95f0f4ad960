//! Logging verbosity levels.

use vstd::prelude::*;

verus! {

/// Logging verbosity levels, ordered from the most serious (`Error`) to the
/// most verbose (`Trace`).
#[derive(Clone, Copy, Debug, PartialEq, Eq, Structural, Hash, PartialOrd, Ord)]
pub enum Level {
    /// Designates very serious errors.
    Error,
    /// Designates hazardous situations.
    Warn,
    /// Designates useful information.
    Info,
    /// Designates lower priority information.
    Debug,
    /// Designates very low priority, often extremely verbose, information.
    Trace,
}

/// The numeric value of a level: `Error` is 1 and each following level is one more.
pub open spec fn level_rank(l: Level) -> nat {
    match l {
        Level::Error => 1,
        Level::Warn => 2,
        Level::Info => 3,
        Level::Debug => 4,
        Level::Trace => 5,
    }
}

/// The upper-case name that a level is printed with.
pub open spec fn level_name(l: Level) -> Seq<char> {
    match l {
        Level::Error => "ERROR"@,
        Level::Warn => "WARN"@,
        Level::Info => "INFO"@,
        Level::Debug => "DEBUG"@,
        Level::Trace => "TRACE"@,
    }
}

/// The levels go from the most severe to the most verbose: `Error`,
/// `Warn`, `Info`, `Debug`, `Trace`, each one rank above the one before,
/// starting at 1; no two levels share a rank, so `le` orders them totally.
pub proof fn lemma_levels_are_ordered(a: Level, b: Level)
    ensures
        level_rank(Level::Error) == 1,
        level_rank(Level::Warn) == level_rank(Level::Error) + 1,
        level_rank(Level::Info) == level_rank(Level::Warn) + 1,
        level_rank(Level::Debug) == level_rank(Level::Info) + 1,
        level_rank(Level::Trace) == level_rank(Level::Debug) + 1,
        level_rank(a) == level_rank(b) ==> a == b,
        level_rank(a) <= level_rank(b) || level_rank(b) <= level_rank(a),
        level_name(a) == level_name(b) ==> a == b,
{
    reveal_strlit("ERROR");
    reveal_strlit("WARN");
    reveal_strlit("INFO");
    reveal_strlit("DEBUG");
    reveal_strlit("TRACE");
    if level_name(a) == level_name(b) && a != b {
        match a {
            Level::Error => assert(level_name(a)[0] == 'E'),
            Level::Warn => assert(level_name(a)[0] == 'W'),
            Level::Info => assert(level_name(a)[0] == 'I'),
            Level::Debug => assert(level_name(a)[0] == 'D'),
            Level::Trace => assert(level_name(a)[0] == 'T'),
        }
    }
}

impl Level {
    /// Returns the numeric value of this level, by which levels are ordered.
    pub fn rank(&self) -> (r: usize)
        ensures
            r == level_rank(*self),
    {
        match self {
            Level::Error => 1,
            Level::Warn => 2,
            Level::Info => 3,
            Level::Debug => 4,
            Level::Trace => 5,
        }
    }

    /// Returns the name this level is displayed with.
    pub fn name(&self) -> (s: &'static str)
        ensures
            s@ == level_name(*self),
    {
        match self {
            Level::Error => "ERROR",
            Level::Warn => "WARN",
            Level::Info => "INFO",
            Level::Debug => "DEBUG",
            Level::Trace => "TRACE",
        }
    }

    /// Whether `self` is at most as verbose as `other`, i.e. `self <= other`
    /// in the order of the levels.
    pub fn le(&self, other: &Level) -> (b: bool)
        ensures
            b == (level_rank(*self) <= level_rank(*other)),
    {
        self.rank() <= other.rank()
    }
}

} // verus!
