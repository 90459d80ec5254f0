//! Severities of log messages and the threshold that filters them.

use vstd::prelude::*;

verus! {

/// Severity of one message, from the most severe (`Error`) to the most
/// verbose (`Trace`).
#[derive(Clone, Copy, Debug, PartialEq, Eq, Structural, Hash)]
pub enum Level {
    Error,
    Warn,
    Info,
    Debug,
    Trace,
}

/// The most verbose severity that is still captured; `Off` captures nothing.
#[derive(Clone, Copy, Debug, PartialEq, Eq, Structural, Hash)]
pub enum LevelFilter {
    Off,
    Error,
    Warn,
    Info,
    Debug,
    Trace,
}

impl Level {
    /// Position on the verbosity scale: 1 for `Error` up to 5 for `Trace`.
    /// A smaller number is a more severe message.
    pub open spec fn rank(self) -> nat {
        match self {
            Level::Error => 1,
            Level::Warn => 2,
            Level::Info => 3,
            Level::Debug => 4,
            Level::Trace => 5,
        }
    }

    /// The upper-case name, padded on the right with spaces to nine columns.
    pub open spec fn label_text(self) -> Seq<char> {
        match self {
            Level::Error => "ERROR    "@,
            Level::Warn => "WARN     "@,
            Level::Info => "INFO     "@,
            Level::Debug => "DEBUG    "@,
            Level::Trace => "TRACE    "@,
        }
    }

    /// The rank as a machine integer.
    pub fn verbosity(self) -> (r: u8)
        ensures
            r == self.rank(),
            1 <= r <= 5,
    {
        match self {
            Level::Error => 1,
            Level::Warn => 2,
            Level::Info => 3,
            Level::Debug => 4,
            Level::Trace => 5,
        }
    }

    /// The column that shows the severity in front of a message.
    pub fn label(self) -> (r: &'static str)
        ensures
            r@ == self.label_text(),
            r@.len() == 9,
    {
        proof {
            reveal_strlit("ERROR    ");
            reveal_strlit("WARN     ");
            reveal_strlit("INFO     ");
            reveal_strlit("DEBUG    ");
            reveal_strlit("TRACE    ");
        }
        match self {
            Level::Error => "ERROR    ",
            Level::Warn => "WARN     ",
            Level::Info => "INFO     ",
            Level::Debug => "DEBUG    ",
            Level::Trace => "TRACE    ",
        }
    }
}

impl LevelFilter {
    /// Position on the verbosity scale: 0 for `Off`, then as [`Level::rank`].
    pub open spec fn rank(self) -> nat {
        match self {
            LevelFilter::Off => 0,
            LevelFilter::Error => 1,
            LevelFilter::Warn => 2,
            LevelFilter::Info => 3,
            LevelFilter::Debug => 4,
            LevelFilter::Trace => 5,
        }
    }

    /// Whether a message of severity `level` is at or above this threshold.
    pub open spec fn admits(self, level: Level) -> bool {
        level.rank() <= self.rank()
    }

    /// The rank as a machine integer.
    pub fn verbosity(self) -> (r: u8)
        ensures
            r == self.rank(),
            r <= 5,
    {
        match self {
            LevelFilter::Off => 0,
            LevelFilter::Error => 1,
            LevelFilter::Warn => 2,
            LevelFilter::Info => 3,
            LevelFilter::Debug => 4,
            LevelFilter::Trace => 5,
        }
    }

    /// Decides whether a message of severity `level` passes this threshold.
    pub fn allows(self, level: Level) -> (r: bool)
        ensures
            r == self.admits(level),
    {
        level.verbosity() <= self.verbosity()
    }
}

/// A threshold admits a severity exactly when it admits every more severe
/// one too, and `Off` admits none.
pub proof fn lemma_admits_is_downward_closed(filter: LevelFilter, a: Level, b: Level)
    requires
        filter.admits(a),
        b.rank() <= a.rank(),
    ensures
        filter.admits(b),
        !LevelFilter::Off.admits(a),
        LevelFilter::Trace.admits(a),
{
}

} // verus!
