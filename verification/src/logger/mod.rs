//! Rendering of log lines.
//!
//! A line carries a coloured label, the time of day and the message. The
//! logger renders lines; writing them to its target is left to the caller.
use vstd::prelude::*;
use crate::text::{is_digit, join};

verus! {

/// How serious a message is.
#[derive(Clone, Copy, Debug, PartialEq, Eq, Structural)]
pub enum Level {
    Info,
    Success,
    Warning,
    Error,
    Fatal,
}

/// The colours that labels are painted in.
#[derive(Clone, Copy, Debug, PartialEq, Eq, Structural)]
pub enum Colour {
    Red,
    Green,
    Yellow,
    Blue,
}

/// A message together with its level.
#[derive(Clone, Debug, PartialEq, Eq)]
pub struct Record {
    pub level: Level,
    pub message: String,
}

/// The mathematical value of a [`Record`].
pub struct RecordView {
    pub level: Level,
    pub message: Seq<char>,
}

impl View for Record {
    type V = RecordView;

    open spec fn view(&self) -> RecordView {
        RecordView { level: self.level, message: self.message@ }
    }
}

/// The escape sequence that ends every style.
pub open spec fn reset() -> Seq<char> {
    seq!['\x1b', '[', '0', 'm']
}

/// The last digit of the code that selects a foreground colour.
pub open spec fn colour_digit(colour: Colour) -> char {
    match colour {
        Colour::Red => '1',
        Colour::Green => '2',
        Colour::Yellow => '3',
        Colour::Blue => '4',
    }
}

/// A text in bold type.
pub open spec fn bold(text: Seq<char>) -> Seq<char> {
    seq!['\x1b', '[', '1', 'm'] + text + reset()
}

/// A text in bold type and in the given colour.
pub open spec fn bold_in(colour: Colour, text: Seq<char>) -> Seq<char> {
    seq!['\x1b', '[', '1', ';', '3', colour_digit(colour), 'm'] + text + reset()
}

/// The label that a level is announced with.
pub open spec fn label(level: Level) -> Seq<char> {
    match level {
        Level::Info => "INFO"@,
        Level::Success => "SUCCESS"@,
        Level::Warning => "WARNING"@,
        Level::Error => "ERROR"@,
        Level::Fatal => "FATAL"@,
    }
}

/// The colour that a level's label is painted in.
pub open spec fn colour(level: Level) -> Colour {
    match level {
        Level::Info => Colour::Blue,
        Level::Success => Colour::Green,
        Level::Warning => Colour::Yellow,
        Level::Error => Colour::Red,
        Level::Fatal => Colour::Red,
    }
}

/// A log line, without the line break that ends it: the label, the time
/// between square brackets, a colon and the message.
pub open spec fn line(level: Level, time: Seq<char>, msg: Seq<char>) -> Seq<char> {
    bold_in(colour(level), label(level)) + " ["@ + bold(time) + "]: "@ + msg
}

/// A time of day written as hours, minutes and seconds of two digits each,
/// with colons between them.
pub open spec fn is_clock_time(time: Seq<char>) -> bool {
    &&& time.len() == 8
    &&& is_digit(time[0])
    &&& is_digit(time[1])
    &&& time[2] == ':'
    &&& is_digit(time[3])
    &&& is_digit(time[4])
    &&& time[5] == ':'
    &&& is_digit(time[6])
    &&& is_digit(time[7])
}

/// Whether a line is the rendering of the message at the given time of day.
pub open spec fn stamped_at(level: Level, time: Seq<char>, msg: Seq<char>, text: Seq<char>) -> bool {
    is_clock_time(time) && text == line(level, time, msg)
}

/// A line is stamped when it is the rendering of the message at some time of
/// day.
pub open spec fn stamped(level: Level, msg: Seq<char>, text: Seq<char>) -> bool {
    exists|time: Seq<char>| #[trigger] stamped_at(level, time, msg, text)
}

/// `ansi_term::Colour::bold` and `ansi_term::Style::paint`, displayed: the
/// text between the escape sequence that selects bold type and the colour, and
/// the one that resets the style.
#[verifier::external_body]
fn paint_bold_in(colour: Colour, text: &str) -> (painted: String)
    ensures
        painted@ == bold_in(colour, text@),
{
    let shade = match colour {
        Colour::Red => ansi_term::Colour::Red,
        Colour::Green => ansi_term::Colour::Green,
        Colour::Yellow => ansi_term::Colour::Yellow,
        Colour::Blue => ansi_term::Colour::Blue,
    };
    shade.bold().paint(text).to_string()
}

/// `ansi_term::Style::bold` and `ansi_term::Style::paint`, displayed: the text
/// between the escape sequence that selects bold type and the one that resets
/// the style.
#[verifier::external_body]
fn paint_bold(text: &str) -> (painted: String)
    ensures
        painted@ == bold(text@),
{
    ansi_term::Style::new().bold().paint(text).to_string()
}

/// `chrono::Local::now`, formatted with `%H:%M:%S`: whatever the clock says, the
/// text has two digits each for the hour, the minute and the second.
#[verifier::external_body]
fn get_fmt_time() -> (time: String)
    ensures
        is_clock_time(time@),
{
    format!("{}", chrono::Local::now().format("%H:%M:%S"))
}

/// The label of a level.
pub fn label_of(level: Level) -> (text: &'static str)
    ensures
        text@ == label(level),
{
    match level {
        Level::Info => "INFO",
        Level::Success => "SUCCESS",
        Level::Warning => "WARNING",
        Level::Error => "ERROR",
        Level::Fatal => "FATAL",
    }
}

/// The colour of a level's label.
pub fn colour_of(level: Level) -> (shade: Colour)
    ensures
        shade == colour(level),
{
    match level {
        Level::Info => Colour::Blue,
        Level::Success => Colour::Green,
        Level::Warning => Colour::Yellow,
        Level::Error | Level::Fatal => Colour::Red,
    }
}

/// Renders the line that reports `msg` at the given level and time.
pub fn render(level: Level, time: &str, msg: &str) -> (text: String)
    ensures
        text@ == line(level, time@, msg@),
{
    let head = paint_bold_in(colour_of(level), label_of(level));
    let opened = join(head.as_str(), " [");
    let clock = paint_bold(time);
    let timed = join(opened.as_str(), clock.as_str());
    let closed = join(timed.as_str(), "]: ");
    join(closed.as_str(), msg)
}

/// The logger: it owns the target that its lines are meant for.
pub struct Logger<W> {
    target: W,
}

impl<W> Logger<W> {
    /// The target that the lines are written to.
    pub closed spec fn sink(&self) -> W {
        self.target
    }

    /// Creates a logger for the given target.
    pub fn from(target: W) -> (logger: Self)
        ensures
            logger.sink() == target,
    {
        Logger { target }
    }

    /// Lends the target out, for the lines to be written to it.
    pub fn target(&mut self) -> (target: &mut W)
        ensures
            *target == old(self).sink(),
            final(self).sink() == *final(target),
    {
        &mut self.target
    }

    /// Renders `msg` at the given level, stamped with the current time.
    pub fn stamp(&self, level: Level, msg: &str) -> (text: String)
        ensures
            stamped(level, msg@, text@),
    {
        let time = get_fmt_time();
        let text = render(level, time.as_str(), msg);
        assert(stamped_at(level, time@, msg@, text@));
        text
    }

    /// The line that reports `msg` as information.
    pub fn info(&self, msg: &str) -> (text: String)
        ensures
            stamped(Level::Info, msg@, text@),
    {
        self.stamp(Level::Info, msg)
    }

    /// The line that reports `msg` as a success.
    pub fn success(&self, msg: &str) -> (text: String)
        ensures
            stamped(Level::Success, msg@, text@),
    {
        self.stamp(Level::Success, msg)
    }

    /// The line that reports `msg` as a warning.
    pub fn warn(&self, msg: &str) -> (text: String)
        ensures
            stamped(Level::Warning, msg@, text@),
    {
        self.stamp(Level::Warning, msg)
    }

    /// The line that reports `msg` as an error.
    pub fn error(&self, msg: &str) -> (text: String)
        ensures
            stamped(Level::Error, msg@, text@),
    {
        self.stamp(Level::Error, msg)
    }

    /// The line that reports `msg` as a fatal error. The caller ends the
    /// program once the line is written.
    pub fn fatal(&self, msg: &str) -> (text: String)
        ensures
            stamped(Level::Fatal, msg@, text@),
    {
        self.stamp(Level::Fatal, msg)
    }
}

} // verus!
