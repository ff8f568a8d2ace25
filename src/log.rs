//! Status lines in the style of cargo, CI annotations, and the stopwatch
//! behind the closing summary. The functions here build the lines; printing
//! them is left to the caller.
use vstd::prelude::*;
use crate::text::{chars_of, decimal, digit_char, push_decimal};

verus! {

/// ANSI escape that starts green text.
pub const GREEN: &'static str = "\x1b[32m";
/// ANSI escape that starts yellow text.
pub const YELLOW: &'static str = "\x1b[33m";
/// ANSI escape that starts red text.
pub const RED: &'static str = "\x1b[31m";
/// ANSI escape that starts cyan text.
pub const CYAN: &'static str = "\x1b[36m";
/// ANSI escape that starts bold text.
pub const BOLD: &'static str = "\x1b[1m";
/// ANSI escape that ends colored text.
pub const RESET: &'static str = "\x1b[0m";

/// The width that status labels are right-aligned to.
pub const STATUS_WIDTH: usize = 12;

/// The kind of a status line, which picks its color.
#[derive(Debug, Clone, Copy, PartialEq, Eq, Structural)]
pub enum LogLevel {
    Info,
    Success,
    Warning,
    Error,
}

impl LogLevel {
    pub open spec fn color_spec(self) -> Seq<char> {
        match self {
            LogLevel::Info => CYAN@,
            LogLevel::Success => GREEN@,
            LogLevel::Warning => YELLOW@,
            LogLevel::Error => RED@,
        }
    }

    /// The escape that colors lines of this level.
    pub fn color(&self) -> (r: &'static str)
        ensures
            r@ == self.color_spec(),
    {
        match self {
            LogLevel::Info => CYAN,
            LogLevel::Success => GREEN,
            LogLevel::Warning => YELLOW,
            LogLevel::Error => RED,
        }
    }
}

/// `s` right-aligned with spaces to `width` characters; unchanged when it is
/// that long already.
pub open spec fn pad_left(s: Seq<char>, width: nat) -> Seq<char> {
    if s.len() < width {
        Seq::new((width - s.len()) as nat, |i: int| ' ') + s
    } else {
        s
    }
}

/// A status line: colored label right-aligned to the status width, then the
/// message.
pub open spec fn status_text(status: Seq<char>, message: Seq<char>, level: LogLevel) -> Seq<char> {
    level.color_spec() + pad_left(status, STATUS_WIDTH as nat) + RESET@ + seq![' '] + message
}

/// A sub-item line: an arrow under the status column, then the message.
pub open spec fn sub_text(message: Seq<char>) -> Seq<char> {
    "    "@ + CYAN@ + "===>"@ + RESET@ + "  "@ + message
}

/// A CI annotation line: `::level::message`.
pub open spec fn annotation_text(level: Seq<char>, message: Seq<char>) -> Seq<char> {
    "::"@ + level + "::"@ + message
}

/// The status line for `status` and `message` at `level`.
pub fn status_line(status: &str, message: &str, level: LogLevel) -> (r: String)
    ensures
        r@ == status_text(status@, message@, level),
{
    let mut out = String::new();
    out.push_str(level.color());
    let n = chars_of(status).len();
    let mut i: usize = n;
    while i < STATUS_WIDTH
        invariant
            n == status@.len(),
            n <= i <= STATUS_WIDTH || (n > STATUS_WIDTH && i == n),
            out@ == level.color_spec() + Seq::new((i - n) as nat, |k: int| ' '),
        decreases STATUS_WIDTH - i,
    {
        out.push(' ');
        i += 1;
        assert(out@ == level.color_spec() + Seq::new((i - n) as nat, |k: int| ' '));
    }
    if n < STATUS_WIDTH {
        assert(Seq::new((i - n) as nat, |k: int| ' ') == Seq::new((STATUS_WIDTH - n) as nat, |k: int| ' '));
    } else {
        assert(Seq::new((i - n) as nat, |k: int| ' ') == Seq::<char>::empty());
        assert(out@ == level.color_spec());
    }
    out.push_str(status);
    out.push_str(RESET);
    out.push(' ');
    out.push_str(message);
    out
}

/// The sub-item line for `message`.
pub fn sub_line(message: &str) -> (r: String)
    ensures
        r@ == sub_text(message@),
{
    let mut out = String::new();
    out.push_str("    ");
    out.push_str(CYAN);
    out.push_str("===>");
    out.push_str(RESET);
    out.push_str("  ");
    out.push_str(message);
    out
}

/// The CI annotation line for `message` at `level` (`warning`, `error`).
pub fn annotation_line(level: &str, message: &str) -> (r: String)
    ensures
        r@ == annotation_text(level@, message@),
{
    let mut out = String::new();
    out.push_str("::");
    out.push_str(level);
    out.push_str("::");
    out.push_str(message);
    out
}

/// An elapsed time in microseconds, in hundredths of a second, half up.
pub open spec fn hundredths(micros: nat) -> nat {
    micros / 10000 + if micros % 10000 >= 5000 {
        1nat
    } else {
        0nat
    }
}

/// Seconds with two decimals, as `12.34`.
pub open spec fn seconds_text(micros: nat) -> Seq<char> {
    let h = hundredths(micros);
    decimal(h / 100) + seq!['.', digit_char((h % 100) / 10), digit_char(h % 10)]
}

/// The summary message: `<label> <count> in <seconds>s`.
pub open spec fn finished_text(label: Seq<char>, count: nat, micros: nat) -> Seq<char> {
    label + seq![' '] + decimal(count) + " in "@ + seconds_text(micros) + seq!['s']
}

/// The closing status line of a run that handled `count` items in
/// `elapsed_micros` microseconds.
pub fn finished_line(label: &str, count: usize, elapsed_micros: u128) -> (r: String)
    ensures
        r@ == status_text("Finished"@, finished_text(label@, count as nat, elapsed_micros as nat), LogLevel::Success),
{
    let h: u128 = elapsed_micros / 10000 + if elapsed_micros % 10000 >= 5000 { 1 } else { 0 };
    let mut msg = String::new();
    msg.push_str(label);
    msg.push(' ');
    push_decimal(&mut msg, count as u128);
    msg.push_str(" in ");
    push_decimal(&mut msg, h / 100);
    msg.push('.');
    let frac: u128 = h % 100;
    let mut digits = String::new();
    push_decimal(&mut digits, frac / 10);
    push_decimal(&mut digits, frac % 10);
    proof {
        reveal_with_fuel(decimal, 1);
        assert(decimal((frac / 10) as nat) == seq![digit_char((frac / 10) as nat)]);
        assert(decimal((frac % 10) as nat) == seq![digit_char((frac % 10) as nat)]);
    }
    msg.push_str(digits.as_str());
    msg.push('s');
    assert(msg@ == finished_text(label@, count as nat, elapsed_micros as nat));
    status_line("Finished", msg.as_str(), LogLevel::Success)
}

#[verifier::external_type_specification]
#[verifier::external_body]
pub struct ExInstant(std::time::Instant);

/// Relies on `Instant::now`: a reading of the monotonic clock; nothing is
/// promised of it.
pub assume_specification[ std::time::Instant::now ]() -> std::time::Instant;

/// Relies on `Instant::elapsed`: the time since the instant; it depends on
/// the clock, so nothing is promised of it.
pub assume_specification[ std::time::Instant::elapsed ](i: &std::time::Instant) -> std::time::Duration;

/// Relies on `Duration::as_micros`: the whole microseconds of a duration.
pub assume_specification[ core::time::Duration::as_micros ](d: &core::time::Duration) -> u128;

/// A stopwatch for the closing summary of a run.
pub struct Timer {
    start: std::time::Instant,
    label: String,
}

impl Timer {
    pub closed spec fn label_spec(&self) -> Seq<char> {
        self.label@
    }

    /// Starts a stopwatch whose summary is labelled `label`.
    pub fn start(label: &str) -> (r: Timer)
        ensures
            r.label_spec() == label@,
    {
        Timer { start: std::time::Instant::now(), label: String::from_str(label) }
    }

    /// Stops the stopwatch: the closing status line for `count` items, with
    /// the time elapsed since the start.
    pub fn stop(self, count: usize) -> (r: String)
        ensures
            exists|micros: nat| r@ == status_text(
                "Finished"@,
                finished_text(self.label_spec(), count as nat, micros),
                LogLevel::Success,
            ),
    {
        let micros = self.start.elapsed().as_micros();
        let r = finished_line(self.label.as_str(), count, micros);
        assert(r@ == status_text(
            "Finished"@,
            finished_text(self.label_spec(), count as nat, micros as nat),
            LogLevel::Success,
        ));
        r
    }
}

} // verus!
