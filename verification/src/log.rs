//! The lines of a log: a time stamp, a flag and a message.

use crate::style::{color::Color, text::TextStyle, PrintableStyle};
use vstd::prelude::*;

verus! {

#[verifier::external_type_specification]
#[verifier::external_body]
pub struct ExOffsetDateTime(time::OffsetDateTime);

#[verifier::external_type_specification]
#[verifier::external_body]
pub struct ExIndeterminateOffset(time::error::IndeterminateOffset);

#[verifier::external_type_specification]
#[verifier::external_body]
pub struct ExBorrowedFormatItem<'a>(time::format_description::BorrowedFormatItem<'a>);

#[verifier::external_type_specification]
#[verifier::external_body]
pub struct ExInvalidFormatDescription(time::error::InvalidFormatDescription);

#[verifier::external_type_specification]
#[verifier::external_body]
pub struct ExFormat(time::error::Format);

/// `time::OffsetDateTime::now_local` reads the clock and the offset of the
/// local time zone. What it returns depends on when and where it is
/// called, so nothing is claimed of it; it fails where the offset cannot
/// be determined.
#[verifier::external_body]
fn now_local() -> Result<time::OffsetDateTime, time::error::IndeterminateOffset> {
    time::OffsetDateTime::now_local()
}

/// `time::format_description::parse` reads a description of how a time is
/// to be written. Nothing is claimed of what it returns.
#[verifier::external_body]
#[allow(deprecated)]
fn parse_format(description: &str) -> Result<
    Vec<time::format_description::BorrowedFormatItem<'_>>,
    time::error::InvalidFormatDescription,
> {
    time::format_description::parse(description)
}

/// `time::OffsetDateTime::format` writes a time as a description says.
/// Nothing is claimed of the text.
#[verifier::external_body]
fn format_time(
    time: time::OffsetDateTime,
    format: &Vec<time::format_description::BorrowedFormatItem<'_>>,
) -> Result<String, time::error::Format> {
    time.format(format)
}

/// Why no time stamp could be made.
#[derive(Copy, Clone, PartialEq, Eq, Debug, Structural)]
pub enum LogError {
    /// The offset of the local time zone cannot be determined.
    NoLocalOffset,
    /// The description of the time stamp was not understood.
    BadFormat,
    /// The time could not be written.
    Unformattable,
}

pub enum LogFlag {
    /// No flag: a dash is shown.
    Plain,
    Info,
    Debug,
    Warning,
    Error,
}

impl LogFlag {
    /// The flag as it is shown: its name after the sequence of its color,
    /// or a dash.
    pub open spec fn label(self) -> Seq<char> {
        match self {
            LogFlag::Plain => "-"@,
            LogFlag::Info => Color::Green.sequence() + "info:"@,
            LogFlag::Debug => Color::Blue.sequence() + "debug:"@,
            LogFlag::Warning => Color::Yellow.sequence() + "warning:"@,
            LogFlag::Error => Color::Red.sequence() + "error:"@,
        }
    }

    pub fn to_string(&self) -> (text: String)
        ensures
            text@ == self.label(),
    {
        match self {
            LogFlag::Plain => String::from_str("-"),
            LogFlag::Info => Color::Green.print().concat("info:"),
            LogFlag::Debug => Color::Blue.print().concat("debug:"),
            LogFlag::Warning => Color::Yellow.print().concat("warning:"),
            LogFlag::Error => Color::Red.print().concat("error:"),
        }
    }
}

/// A line of the log: the time stamp in bold between brackets, the flag,
/// the reset of the styles, and the message.
pub open spec fn entry_text(stamp: Seq<char>, flag: LogFlag, msg: Seq<char>) -> Seq<char> {
    TextStyle::Bold.sequence() + "["@ + stamp + "] "@ + flag.label() + "\x1b[0m "@ + msg
}

/// The text with which a log ends.
pub open spec fn end_text() -> Seq<char> {
    "\n----------END OF LOG----------\n"@
}

/// What becomes of the outcome of one step on the way to a time stamp: what
/// the step gave where it succeeded, and `error` where it failed, whatever
/// its own error was.
pub fn or_error<T, E>(outcome: Result<T, E>, error: LogError) -> (step: Result<T, LogError>)
    ensures
        match outcome {
            Ok(value) => step == Ok::<T, LogError>(value),
            Err(_) => step == Err::<T, LogError>(error),
        },
{
    match outcome {
        Ok(value) => Ok(value),
        Err(_) => Err(error),
    }
}

/// The time of day in the local time zone, as hours, minutes and seconds.
/// The clock is read, the description of the stamp is read, and the time is
/// written as it says; the first of these steps that fails decides the
/// error. Nothing is said of the stamp itself: it is what the clock and the
/// time zone make it.
pub fn timestamp() -> (stamp: Result<String, LogError>) {
    match or_error(now_local(), LogError::NoLocalOffset) {
        Err(e) => Err(e),
        Ok(now) => match or_error(parse_format("[hour]:[minute]:[second]"), LogError::BadFormat) {
            Err(e) => Err(e),
            Ok(format) => or_error(format_time(now, &format), LogError::Unformattable),
        },
    }
}

/// The line of the log for the message `msg` with the flag `flag`, written
/// at the time `stamp`.
pub fn entry(stamp: &str, flag: LogFlag, msg: &str) -> (line: String)
    ensures
        line@ == entry_text(stamp@, flag, msg@),
{
    let mut line = TextStyle::Bold.print();
    line.append("[");
    line.append(stamp);
    line.append("] ");
    line.append(flag.to_string().as_str());
    line.append("\x1b[0m ");
    line.append(msg);
    line
}

/// The line of the log for the message `msg` with the flag `flag`, written
/// now.
pub fn entry_now(flag: LogFlag, msg: &str) -> (line: Result<String, LogError>)
    ensures
        line matches Ok(text) ==> exists|stamp: Seq<char>| text@ == entry_text(stamp, flag, msg@),
{
    match timestamp() {
        Err(e) => Err(e),
        Ok(stamp) => Ok(entry(stamp.as_str(), flag, msg)),
    }
}

/// The text with which a log ends.
pub fn end_marker() -> (text: String)
    ensures
        text@ == end_text(),
{
    String::from_str("\n----------END OF LOG----------\n")
}

} // verus!
