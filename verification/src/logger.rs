//! The log bridge: diagnostic log records become `Processing` messages,
//! stamped with the time since the first record.

use crate::clock::Clock;
use crate::message::Message;
use crate::message::MessageView;
use crate::text::append_clock;
use crate::text::append_decimal;
use crate::text::clock_text;
use crate::text::decimal;
use vstd::prelude::*;

verus! {

/// The level of a log record, from the most severe to the most verbose.
#[derive(Clone, Copy, Debug, PartialEq, Eq, Structural)]
pub enum Level {
    Error,
    Warn,
    Info,
    Debug,
    Trace,
}

/// The verbosity of the bridge: the most verbose level that it lets through.
#[derive(Clone, Copy, Debug, PartialEq, Eq, Structural)]
pub enum LevelFilter {
    Off,
    Error,
    Warn,
    Info,
    Debug,
    Trace,
}

impl Level {
    /// The place of the level in the order of verbosity, from 1.
    pub open spec fn rank(self) -> int {
        match self {
            Level::Error => 1,
            Level::Warn => 2,
            Level::Info => 3,
            Level::Debug => 4,
            Level::Trace => 5,
        }
    }

    /// The name under which the level appears in messages.
    pub open spec fn label(self) -> Seq<char> {
        match self {
            Level::Error => "ERROR"@,
            Level::Warn => "WARN"@,
            Level::Info => "INFO"@,
            Level::Debug => "DEBUG"@,
            Level::Trace => "TRACE"@,
        }
    }

    pub fn as_str(&self) -> (name: &'static str)
        ensures
            name@ == self.label(),
    {
        level_name(*self)
    }
}

/// `log::Level::as_str`: the name of a level as the `log` crate prints it,
/// which is the level's own name in capitals.
#[verifier::external_body]
fn level_name(level: Level) -> (name: &'static str)
    ensures
        name@ == level.label(),
{
    let level = match level {
        Level::Error => log::Level::Error,
        Level::Warn => log::Level::Warn,
        Level::Info => log::Level::Info,
        Level::Debug => log::Level::Debug,
        Level::Trace => log::Level::Trace,
    };
    level.as_str()
}

impl LevelFilter {
    /// The place of the filter in the order of verbosity: 0 lets nothing
    /// through, 5 everything.
    pub open spec fn rank(self) -> int {
        match self {
            LevelFilter::Off => 0,
            LevelFilter::Error => 1,
            LevelFilter::Warn => 2,
            LevelFilter::Info => 3,
            LevelFilter::Debug => 4,
            LevelFilter::Trace => 5,
        }
    }

    /// The filter that a verbosity code stands for, if it stands for one.
    pub open spec fn of_code(code: int) -> Option<LevelFilter> {
        if code == 0 {
            Some(LevelFilter::Off)
        } else if code == 1 {
            Some(LevelFilter::Error)
        } else if code == 2 {
            Some(LevelFilter::Warn)
        } else if code == 3 {
            Some(LevelFilter::Info)
        } else if code == 4 {
            Some(LevelFilter::Debug)
        } else if code == 5 {
            Some(LevelFilter::Trace)
        } else {
            None
        }
    }

    /// Reads a verbosity code: 0 is off, 5 the most verbose.
    pub fn from_code(code: u8) -> (filter: Option<LevelFilter>)
        ensures
            filter == LevelFilter::of_code(code as int),
            filter is Some <==> code <= 5,
            filter matches Some(f) ==> f.rank() == code,
    {
        match code {
            0 => Some(LevelFilter::Off),
            1 => Some(LevelFilter::Error),
            2 => Some(LevelFilter::Warn),
            3 => Some(LevelFilter::Info),
            4 => Some(LevelFilter::Debug),
            5 => Some(LevelFilter::Trace),
            _ => None,
        }
    }

    /// The verbosity code of this filter.
    pub fn code(&self) -> (code: u8)
        ensures
            code == self.rank(),
    {
        match self {
            LevelFilter::Off => 0,
            LevelFilter::Error => 1,
            LevelFilter::Warn => 2,
            LevelFilter::Info => 3,
            LevelFilter::Debug => 4,
            LevelFilter::Trace => 5,
        }
    }

    /// Whether records of the given level pass this filter.
    pub fn allows(&self, level: Level) -> (pass: bool)
        ensures
            pass == (level.rank() <= self.rank()),
    {
        let threshold = self.code();
        let rank: u8 = match level {
            Level::Error => 1,
            Level::Warn => 2,
            Level::Info => 3,
            Level::Debug => 4,
            Level::Trace => 5,
        };
        rank <= threshold
    }
}

/// The text of a `Processing` message: the level, the time since the first
/// record as `hh:mm:ss`, and the record's own text.
pub open spec fn log_line(level: Level, elapsed_secs: nat, text: Seq<char>) -> Seq<char> {
    "["@ + level.label() + "] ["@ + clock_text(elapsed_secs) + "] "@ + text
}

/// The message that carries a log record.
pub open spec fn log_message(level: Level, elapsed_secs: nat, text: Seq<char>) -> MessageView {
    MessageView::Processing { level: level.label(), text: log_line(level, elapsed_secs, text) }
}

/// What is reported when a verbosity code stands for no filter.
pub open spec fn invalid_code_report(code: int) -> Seq<char> {
    "Invalid LevelFilter value: "@ + decimal(code as nat)
}

/// What is reported when the sink could not be installed.
pub open spec fn install_failure_report(reason: Seq<char>) -> Seq<char> {
    "Failed to apply logger: "@ + reason
}

/// The nanoseconds in one second.
pub const NANOS_PER_SEC: u128 = 1_000_000_000;

/// Frames one log record as a `Processing` message.
pub fn format_record(level: Level, elapsed_nanos: u128, text: &str) -> (message: Message)
    ensures
        message@ == log_message(level, (elapsed_nanos / NANOS_PER_SEC) as nat, text@),
{
    let label = level.as_str();
    let mut line = String::from_str("[");
    line.append(label);
    line.append("] [");
    append_clock(&mut line, elapsed_nanos / NANOS_PER_SEC);
    line.append("] ");
    line.append(text);
    Message::Processing { level: String::from_str(label), text: line }
}

/// What the caller of `init_logger` has to do next.
#[derive(Debug, PartialEq, Eq)]
pub enum Install {
    /// Install the process-wide sink, with this filter.
    Apply(LevelFilter),
    /// A sink is installed already: install nothing.
    AlreadyInstalled,
    /// The code stands for no filter: install nothing, and report this text
    /// outside the message protocol.
    Invalid(String),
}

/// An `Install` with its text as a sequence of characters.
pub enum InstallView {
    Apply(LevelFilter),
    AlreadyInstalled,
    Invalid(Seq<char>),
}

impl View for Install {
    type V = InstallView;

    open spec fn view(&self) -> InstallView {
        match self {
            Install::Apply(filter) => InstallView::Apply(*filter),
            Install::AlreadyInstalled => InstallView::AlreadyInstalled,
            Install::Invalid(report) => InstallView::Invalid(report@),
        }
    }
}

/// The bridge between the process-wide log sink and the message protocol.
pub struct LogBridge {
    filter: Option<LevelFilter>,
    epoch: Option<Clock>,
    failure_reported: bool,
}

impl LogBridge {
    /// The filter of the installed sink; `None` while no sink is installed.
    pub closed spec fn filter(&self) -> Option<LevelFilter> {
        self.filter
    }

    /// The clock that was started at the first use; `None` before it.
    pub closed spec fn epoch(&self) -> Option<Clock> {
        self.epoch
    }

    /// Whether a failure to install the sink has been reported.
    pub closed spec fn failure_reported(&self) -> bool {
        self.failure_reported
    }

    /// Whether a record of this level is delivered.
    pub open spec fn delivers(&self, level: Level) -> bool {
        self.filter() matches Some(filter) && level.rank() <= filter.rank()
    }

    /// What `init_logger` answers to a code, and the filter it leaves.
    pub open spec fn init_outcome(&self, code: int) -> (InstallView, Option<LevelFilter>) {
        match LevelFilter::of_code(code) {
            None => (InstallView::Invalid(invalid_code_report(code)), self.filter()),
            Some(filter) => if self.filter() is Some {
                (InstallView::AlreadyInstalled, self.filter())
            } else {
                (InstallView::Apply(filter), Some(filter))
            },
        }
    }

    /// A bridge with no sink installed and no epoch taken.
    pub fn new() -> (bridge: LogBridge)
        ensures
            bridge.filter() is None,
            bridge.epoch() is None,
            !bridge.failure_reported(),
    {
        LogBridge { filter: None, epoch: None, failure_reported: false }
    }

    /// Takes note that the sink could not be installed. The bridge is left
    /// without a sink, and the failure is reported once: the first call
    /// returns the text to report outside the message protocol, later calls
    /// return nothing.
    pub fn install_failed(&mut self, reason: &str) -> (report: Option<String>)
        ensures
            final(self).filter() is None,
            final(self).failure_reported(),
            final(self).epoch() == old(self).epoch(),
            old(self).failure_reported() ==> report is None,
            !old(self).failure_reported() ==> (report matches Some(text) && text@
                == install_failure_report(reason@)),
    {
        self.filter = None;
        if self.failure_reported {
            None
        } else {
            self.failure_reported = true;
            let mut text = String::from_str("Failed to apply logger: ");
            text.append(reason);
            Some(text)
        }
    }

    /// The nanoseconds since the epoch. The epoch is taken at the first
    /// call and never again.
    pub fn elapsed(&mut self) -> (nanos: u128)
        ensures
            final(self).epoch() is Some,
            old(self).epoch() is Some ==> final(self).epoch() == old(self).epoch(),
            final(self).filter() == old(self).filter(),
            final(self).failure_reported() == old(self).failure_reported(),
    {
        if self.epoch.is_none() {
            self.epoch = Some(Clock::start());
        }
        match &self.epoch {
            Some(clock) => clock.now(),
            None => 0,
        }
    }

    /// Frames a record that was logged `elapsed_nanos` after the epoch, if
    /// the filter lets its level through.
    pub fn record_at(&self, level: Level, elapsed_nanos: u128, text: &str) -> (message: Option<
        Message,
    >)
        ensures
            message is Some <==> self.delivers(level),
            message matches Some(m) ==> m@ == log_message(
                level,
                (elapsed_nanos / NANOS_PER_SEC) as nat,
                text@,
            ),
    {
        match self.filter {
            Some(filter) => {
                if filter.allows(level) {
                    Some(format_record(level, elapsed_nanos, text))
                } else {
                    None
                }
            },
            None => None,
        }
    }

    /// Frames a record that is logged now, if the filter lets its level
    /// through. The time stamp is read from the clock; what the message is
    /// for a given reading is stated at `record_at`.
    pub fn record(&mut self, level: Level, text: &str) -> (message: Option<Message>)
        ensures
            message is Some <==> old(self).delivers(level),
            message matches Some(m) ==> exists|secs: nat| m@ == log_message(level, secs, text@),
            final(self).filter() == old(self).filter(),
            final(self).failure_reported() == old(self).failure_reported(),
            old(self).epoch() is Some ==> final(self).epoch() == old(self).epoch(),
            old(self).delivers(level) ==> final(self).epoch() is Some,
            !old(self).delivers(level) ==> final(self).epoch() == old(self).epoch(),
    {
        let enabled = match self.filter {
            Some(filter) => filter.allows(level),
            None => false,
        };
        if enabled {
            let nanos = self.elapsed();
            self.record_at(level, nanos, text)
        } else {
            None
        }
    }
}

/// Takes the verbosity code for the bridge. The first valid code fixes the
/// filter and asks for the sink to be installed; any later one changes
/// nothing, so that no record is ever delivered twice. An invalid code
/// changes nothing either and is reported, not failed on.
pub fn init_logger(bridge: &mut LogBridge, level_filter_u8: u8) -> (install: Install)
    ensures
        (install@, final(bridge).filter()) == old(bridge).init_outcome(level_filter_u8 as int),
        final(bridge).epoch() == old(bridge).epoch(),
        final(bridge).failure_reported() == old(bridge).failure_reported(),
{
    match LevelFilter::from_code(level_filter_u8) {
        None => {
            let mut report = String::from_str("Invalid LevelFilter value: ");
            append_decimal(&mut report, level_filter_u8 as u128);
            Install::Invalid(report)
        },
        Some(filter) => {
            if bridge.filter.is_some() {
                Install::AlreadyInstalled
            } else {
                bridge.filter = Some(filter);
                Install::Apply(filter)
            }
        },
    }
}

/// Installing again changes nothing: once a sink is installed, every further
/// code leaves the filter as it is and asks for no second sink.
pub proof fn reinstall_changes_nothing(bridge: LogBridge, code: int)
    requires
        bridge.filter() is Some,
    ensures
        bridge.init_outcome(code).1 == bridge.filter(),
        !(bridge.init_outcome(code).0 is Apply),
{
}

} // verus!
