//! Severity levels of a GELF record and their relation to the five levels
//! of the `log` facade.

use vstd::prelude::*;
use vstd::std_specs::convert::FromSpecImpl;

verus! {

/// `log::Level`, an enum of five field-less variants, made known to the
/// verifier with its variants.
#[verifier::external_type_specification]
pub struct ExLogLevel(log::Level);

/// The record level, equal to the standard syslog levels. The levels are
/// ordered as their ordinals are: the more severe level is the smaller.
#[derive(Debug, Clone, Copy, PartialEq, Eq, PartialOrd, Structural)]
pub enum GelfLevel {
    /// System is unusable.
    Emergency,
    /// Action must be taken immediately.
    Alert,
    /// Critical conditions such as hard device or memory errors.
    Critical,
    /// Error conditions.
    Error,
    /// Warning conditions.
    Warning,
    /// Normal but significant conditions.
    Notice,
    /// Informational messages.
    Informational,
    /// Debug-level messages.
    Debugging,
}

/// The level with the given syslog ordinal; an ordinal above 7 stands for
/// `Alert`.
pub open spec fn level_of_ordinal(ordinal: u32) -> GelfLevel {
    if ordinal == 0 {
        GelfLevel::Emergency
    } else if ordinal == 2 {
        GelfLevel::Critical
    } else if ordinal == 3 {
        GelfLevel::Error
    } else if ordinal == 4 {
        GelfLevel::Warning
    } else if ordinal == 5 {
        GelfLevel::Notice
    } else if ordinal == 6 {
        GelfLevel::Informational
    } else if ordinal == 7 {
        GelfLevel::Debugging
    } else {
        GelfLevel::Alert
    }
}

/// The GELF level that a level of the `log` facade is recorded as.
pub open spec fn level_of_log(level: log::Level) -> GelfLevel {
    match level {
        log::Level::Trace => GelfLevel::Debugging,
        log::Level::Debug => GelfLevel::Debugging,
        log::Level::Info => GelfLevel::Informational,
        log::Level::Warn => GelfLevel::Warning,
        log::Level::Error => GelfLevel::Error,
    }
}

/// The level of the `log` facade that a GELF level is reported as.
pub open spec fn log_of_level(level: GelfLevel) -> log::Level {
    match level {
        GelfLevel::Debugging => log::Level::Debug,
        GelfLevel::Informational => log::Level::Info,
        GelfLevel::Warning => log::Level::Warn,
        _ => log::Level::Error,
    }
}

impl GelfLevel {
    /// The syslog ordinal of the level, from 0 (`Emergency`) to 7
    /// (`Debugging`).
    pub open spec fn spec_ordinal(self) -> u32 {
        match self {
            GelfLevel::Emergency => 0,
            GelfLevel::Alert => 1,
            GelfLevel::Critical => 2,
            GelfLevel::Error => 3,
            GelfLevel::Warning => 4,
            GelfLevel::Notice => 5,
            GelfLevel::Informational => 6,
            GelfLevel::Debugging => 7,
        }
    }

    /// The name of the level, as it is written in a record.
    pub open spec fn spec_name(self) -> Seq<char> {
        match self {
            GelfLevel::Emergency => "Emergency"@,
            GelfLevel::Alert => "Alert"@,
            GelfLevel::Critical => "Critical"@,
            GelfLevel::Error => "Error"@,
            GelfLevel::Warning => "Warning"@,
            GelfLevel::Notice => "Notice"@,
            GelfLevel::Informational => "Informational"@,
            GelfLevel::Debugging => "Debugging"@,
        }
    }

    /// The syslog ordinal of the level.
    #[verifier::when_used_as_spec(spec_ordinal)]
    pub fn ordinal(self) -> (n: u32)
        ensures
            n == self.spec_ordinal(),
            n <= 7,
    {
        match self {
            GelfLevel::Emergency => 0,
            GelfLevel::Alert => 1,
            GelfLevel::Critical => 2,
            GelfLevel::Error => 3,
            GelfLevel::Warning => 4,
            GelfLevel::Notice => 5,
            GelfLevel::Informational => 6,
            GelfLevel::Debugging => 7,
        }
    }

    /// The name of the level.
    pub fn name(self) -> (s: &'static str)
        ensures
            s@ == self.spec_name(),
    {
        match self {
            GelfLevel::Emergency => "Emergency",
            GelfLevel::Alert => "Alert",
            GelfLevel::Critical => "Critical",
            GelfLevel::Error => "Error",
            GelfLevel::Warning => "Warning",
            GelfLevel::Notice => "Notice",
            GelfLevel::Informational => "Informational",
            GelfLevel::Debugging => "Debugging",
        }
    }
}

impl Default for GelfLevel {
    /// The default level is `Alert`.
    fn default() -> (level: GelfLevel)
        ensures
            level == GelfLevel::Alert,
    {
        GelfLevel::Alert
    }
}

impl From<log::Level> for GelfLevel {
    fn from(level: log::Level) -> (r: GelfLevel) {
        match level {
            log::Level::Trace => GelfLevel::Debugging,
            log::Level::Debug => GelfLevel::Debugging,
            log::Level::Info => GelfLevel::Informational,
            log::Level::Warn => GelfLevel::Warning,
            log::Level::Error => GelfLevel::Error,
        }
    }
}

impl FromSpecImpl<log::Level> for GelfLevel {
    open spec fn obeys_from_spec() -> bool {
        true
    }

    open spec fn from_spec(level: log::Level) -> GelfLevel {
        level_of_log(level)
    }
}

impl From<&GelfLevel> for log::Level {
    fn from(level: &GelfLevel) -> (r: log::Level) {
        match level {
            GelfLevel::Debugging => log::Level::Debug,
            GelfLevel::Informational => log::Level::Info,
            GelfLevel::Warning => log::Level::Warn,
            _ => log::Level::Error,
        }
    }
}

impl FromSpecImpl<&GelfLevel> for log::Level {
    open spec fn obeys_from_spec() -> bool {
        true
    }

    open spec fn from_spec(level: &GelfLevel) -> log::Level {
        log_of_level(*level)
    }
}

impl From<u32> for GelfLevel {
    fn from(ordinal: u32) -> (r: GelfLevel) {
        match ordinal {
            0 => GelfLevel::Emergency,
            1 => GelfLevel::Alert,
            2 => GelfLevel::Critical,
            3 => GelfLevel::Error,
            4 => GelfLevel::Warning,
            5 => GelfLevel::Notice,
            6 => GelfLevel::Informational,
            7 => GelfLevel::Debugging,
            _ => GelfLevel::Alert,
        }
    }
}

impl FromSpecImpl<u32> for GelfLevel {
    open spec fn obeys_from_spec() -> bool {
        true
    }

    open spec fn from_spec(ordinal: u32) -> GelfLevel {
        level_of_ordinal(ordinal)
    }
}

impl From<GelfLevel> for String {
    /// The name of the level.
    fn from(level: GelfLevel) -> (r: String)
        ensures
            r@ == level.spec_name(),
    {
        level.name().to_string()
    }
}

impl FromSpecImpl<GelfLevel> for String {
    open spec fn obeys_from_spec() -> bool {
        false
    }

    open spec fn from_spec(level: GelfLevel) -> String {
        choose|s: String| s@ == level.spec_name()
    }
}

/// Every ordinal gives a level, and every level is the level of its own
/// ordinal.
pub proof fn lemma_ordinal_round_trip(level: GelfLevel)
    ensures
        level.spec_ordinal() <= 7,
        level_of_ordinal(level.spec_ordinal()) == level,
{
}

/// An ordinal outside the table stands for `Alert`, and an ordinal of the
/// table is the ordinal of its level.
pub proof fn lemma_ordinal_total(ordinal: u32)
    ensures
        ordinal > 7 ==> level_of_ordinal(ordinal) == GelfLevel::Alert,
        ordinal <= 7 ==> level_of_ordinal(ordinal).spec_ordinal() == ordinal,
{
}

/// A level of the `log` facade that is recorded and reported back is
/// unchanged, but for `Trace`, which comes back as `Debug`.
pub proof fn lemma_log_round_trip(level: log::Level)
    ensures
        level != log::Level::Trace ==> log_of_level(level_of_log(level)) == level,
        level == log::Level::Trace ==> log_of_level(level_of_log(level)) == log::Level::Debug,
{
}

/// A GELF level that is reported and recorded again is unchanged exactly
/// when it is one of the four levels that the `log` facade can tell apart;
/// every other level comes back as `Error`.
pub proof fn lemma_level_round_trip(level: GelfLevel)
    ensures
        level_of_log(log_of_level(level)) == (match level {
            GelfLevel::Debugging => GelfLevel::Debugging,
            GelfLevel::Informational => GelfLevel::Informational,
            GelfLevel::Warning => GelfLevel::Warning,
            _ => GelfLevel::Error,
        }),
{
}

} // verus!
