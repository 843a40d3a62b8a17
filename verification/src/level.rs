//! The severity scale and its conversions.
//!
//! Three scales meet here: the native library's numeric scale (a 32-bit
//! integer, larger means more verbose), this crate's `Level` enumeration,
//! and the coarser `FilterLevel` scale of a general logging framework.
//! `to_native` and `from_native` are exact inverses on the defined
//! values; `to_filter` is a total, many-to-one coarsening.

use vstd::prelude::*;

verus! {

/// Numeric value the native library uses for "suppress all output".
pub const NATIVE_QUIET: i32 = -8;
/// Numeric value the native library uses for "abort-worthy".
pub const NATIVE_PANIC: i32 = 0;
/// Numeric value the native library uses for "fatal error".
pub const NATIVE_FATAL: i32 = 8;
/// Numeric value the native library uses for "error".
pub const NATIVE_ERROR: i32 = 16;
/// Numeric value the native library uses for "warning".
pub const NATIVE_WARNING: i32 = 24;
/// Numeric value the native library uses for "informational".
pub const NATIVE_INFO: i32 = 32;
/// Numeric value the native library uses for "verbose".
pub const NATIVE_VERBOSE: i32 = 40;
/// Numeric value the native library uses for "debug".
pub const NATIVE_DEBUG: i32 = 48;
/// Numeric value the native library uses for "trace".
pub const NATIVE_TRACE: i32 = 56;

/// A log event's severity, ordered by urgency: `Quiet` suppresses
/// everything, `Panic` marks an abort-worthy condition.
///
/// Declaration order is urgency order (least urgent first), which is how
/// threshold filtering compares levels.  The native numeric scale runs
/// the other way round — larger numbers mean more verbose — so ordering
/// by `native_of` is verbosity order, not urgency order.
#[derive(Clone, Copy, Debug, PartialEq, Eq, PartialOrd, Ord, Structural)]
pub enum Level {
    Quiet,
    Trace,
    Debug,
    Verbose,
    Info,
    Warning,
    Error,
    Fatal,
    Panic,
}

/// Error returned when a native numeric level is outside the defined scale.
#[derive(Clone, Copy, Debug, PartialEq, Eq, Structural)]
pub struct LevelError;

/// The general logging framework's filter scale, in that framework's own
/// order: `Off` disables everything, `Error` is the least verbose
/// enabled rank, `Trace` the most verbose.
#[derive(Clone, Copy, Debug, PartialEq, Eq, PartialOrd, Ord, Structural)]
pub enum FilterLevel {
    Off,
    Error,
    Warn,
    Info,
    Debug,
    Trace,
}

/// The native numeric value of a severity.
pub open spec fn native_of(l: Level) -> int {
    match l {
        Level::Quiet => NATIVE_QUIET as int,
        Level::Trace => NATIVE_TRACE as int,
        Level::Debug => NATIVE_DEBUG as int,
        Level::Verbose => NATIVE_VERBOSE as int,
        Level::Info => NATIVE_INFO as int,
        Level::Warning => NATIVE_WARNING as int,
        Level::Error => NATIVE_ERROR as int,
        Level::Fatal => NATIVE_FATAL as int,
        Level::Panic => NATIVE_PANIC as int,
    }
}

/// The severity a native numeric value denotes, if it is defined.
pub open spec fn level_of_native(v: int) -> Option<Level> {
    if v == NATIVE_QUIET as int {
        Some(Level::Quiet)
    } else if v == NATIVE_PANIC as int {
        Some(Level::Panic)
    } else if v == NATIVE_FATAL as int {
        Some(Level::Fatal)
    } else if v == NATIVE_ERROR as int {
        Some(Level::Error)
    } else if v == NATIVE_WARNING as int {
        Some(Level::Warning)
    } else if v == NATIVE_INFO as int {
        Some(Level::Info)
    } else if v == NATIVE_VERBOSE as int {
        Some(Level::Verbose)
    } else if v == NATIVE_DEBUG as int {
        Some(Level::Debug)
    } else if v == NATIVE_TRACE as int {
        Some(Level::Trace)
    } else {
        None
    }
}

/// The severity decoded from a native numeric value, falling back to
/// `Info` on an undefined value: a native log event must never abort the
/// host, so the dispatch path never fails on a bad level.
pub open spec fn decoded_level(v: int) -> Level {
    match level_of_native(v) {
        Some(l) => l,
        None => Level::Info,
    }
}

/// Urgency rank of a severity: the position in declaration order,
/// `Quiet` lowest, `Panic` highest.  Threshold filtering drops an event
/// whose rank is below the configured level's rank.
pub open spec fn severity_rank(l: Level) -> int {
    match l {
        Level::Quiet => 0,
        Level::Trace => 1,
        Level::Debug => 2,
        Level::Verbose => 3,
        Level::Info => 4,
        Level::Warning => 5,
        Level::Error => 6,
        Level::Fatal => 7,
        Level::Panic => 8,
    }
}

/// The filter rank a severity coarsens to.
pub open spec fn filter_of(l: Level) -> FilterLevel {
    match l {
        Level::Quiet => FilterLevel::Off,
        Level::Trace => FilterLevel::Trace,
        Level::Debug => FilterLevel::Debug,
        Level::Verbose => FilterLevel::Debug,
        Level::Info => FilterLevel::Info,
        Level::Warning => FilterLevel::Warn,
        Level::Error => FilterLevel::Error,
        Level::Fatal => FilterLevel::Error,
        Level::Panic => FilterLevel::Error,
    }
}

/// Position of a filter rank in the filter scale's own order: `Off`
/// lowest, then `Error` up to `Trace` by increasing verbosity.
pub open spec fn filter_rank(f: FilterLevel) -> int {
    match f {
        FilterLevel::Off => 0,
        FilterLevel::Error => 1,
        FilterLevel::Warn => 2,
        FilterLevel::Info => 3,
        FilterLevel::Debug => 4,
        FilterLevel::Trace => 5,
    }
}

impl FilterLevel {
    /// Position of this filter rank in the filter scale's own order;
    /// see [`filter_rank`].
    pub fn rank(self) -> (r: u8)
        ensures
            r as int == filter_rank(self),
    {
        match self {
            FilterLevel::Off => 0,
            FilterLevel::Error => 1,
            FilterLevel::Warn => 2,
            FilterLevel::Info => 3,
            FilterLevel::Debug => 4,
            FilterLevel::Trace => 5,
        }
    }
}

impl Level {
    /// The native numeric value of this severity.
    pub fn to_native(self) -> (r: i32)
        ensures
            r as int == native_of(self),
    {
        match self {
            Level::Quiet => NATIVE_QUIET,
            Level::Trace => NATIVE_TRACE,
            Level::Debug => NATIVE_DEBUG,
            Level::Verbose => NATIVE_VERBOSE,
            Level::Info => NATIVE_INFO,
            Level::Warning => NATIVE_WARNING,
            Level::Error => NATIVE_ERROR,
            Level::Fatal => NATIVE_FATAL,
            Level::Panic => NATIVE_PANIC,
        }
    }

    /// Decodes a native numeric value; a value outside the defined scale
    /// is rejected with `LevelError`, never mapped to a severity silently.
    pub fn from_native(value: i32) -> (r: Result<Level, LevelError>)
        ensures
            r matches Ok(l) ==> level_of_native(value as int) == Some(l),
            r is Err <==> level_of_native(value as int) is None,
            r matches Err(e) ==> e == LevelError,
    {
        if value == NATIVE_QUIET {
            Ok(Level::Quiet)
        } else if value == NATIVE_PANIC {
            Ok(Level::Panic)
        } else if value == NATIVE_FATAL {
            Ok(Level::Fatal)
        } else if value == NATIVE_ERROR {
            Ok(Level::Error)
        } else if value == NATIVE_WARNING {
            Ok(Level::Warning)
        } else if value == NATIVE_INFO {
            Ok(Level::Info)
        } else if value == NATIVE_VERBOSE {
            Ok(Level::Verbose)
        } else if value == NATIVE_DEBUG {
            Ok(Level::Debug)
        } else if value == NATIVE_TRACE {
            Ok(Level::Trace)
        } else {
            Err(LevelError)
        }
    }

    /// Decodes a native numeric value, falling back to `Info` on an
    /// undefined value; the fallback-safe conversion the dispatch path uses.
    pub fn from_native_or_default(value: i32) -> (r: Level)
        ensures
            r == decoded_level(value as int),
    {
        match Level::from_native(value) {
            Ok(l) => l,
            Err(_) => Level::Info,
        }
    }

    /// Urgency rank of this severity; see [`severity_rank`].
    pub fn rank(self) -> (r: u8)
        ensures
            r as int == severity_rank(self),
    {
        match self {
            Level::Quiet => 0,
            Level::Trace => 1,
            Level::Debug => 2,
            Level::Verbose => 3,
            Level::Info => 4,
            Level::Warning => 5,
            Level::Error => 6,
            Level::Fatal => 7,
            Level::Panic => 8,
        }
    }

    /// Coarsens this severity to the general logging framework's filter
    /// scale.  Total: every severity has a filter rank, `Quiet` mapping
    /// to `Off`.
    pub fn to_filter(self) -> (r: FilterLevel)
        ensures
            r == filter_of(self),
    {
        match self {
            Level::Quiet => FilterLevel::Off,
            Level::Trace => FilterLevel::Trace,
            Level::Debug => FilterLevel::Debug,
            Level::Verbose => FilterLevel::Debug,
            Level::Info => FilterLevel::Info,
            Level::Warning => FilterLevel::Warn,
            Level::Error => FilterLevel::Error,
            Level::Fatal => FilterLevel::Error,
            Level::Panic => FilterLevel::Error,
        }
    }
}

/// Law: decoding the native value of a severity gives that severity back.
pub proof fn lemma_native_round_trip(l: Level)
    ensures
        level_of_native(native_of(l)) == Some(l),
{
}

/// Law: encoding the severity a defined native value decodes to gives
/// that value back.
pub proof fn lemma_native_round_trip_rev(v: int)
    requires
        level_of_native(v) is Some,
    ensures
        (level_of_native(v) matches Some(l) ==> native_of(l) == v),
{
}

/// Law: the coarsening to the filter scale is monotonic — a severity
/// that is at most as verbose on the native scale coarsens to a filter
/// rank that is at most as high in the filter scale's own order.
pub proof fn lemma_to_filter_monotone(a: Level, b: Level)
    requires
        native_of(a) <= native_of(b),
    ensures
        filter_rank(filter_of(a)) <= filter_rank(filter_of(b)),
{
}

} // verus!
