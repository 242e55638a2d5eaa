//! Local time as text, in the three shapes the monitor uses: inside file
//! names, in note headings and in log entries.

use crate::text::{is_digit, is_name_char, is_name_text, is_single_line};
use vstd::prelude::*;

verus! {

/// The three shapes of a time stamp.
#[derive(Clone, Copy, Debug, PartialEq, Eq, Structural)]
pub enum StampStyle {
    /// `DDMMYYYY_HHMMSS`, for file names.
    Compact,
    /// `DD.MM.YYYY um HH:MM`, for note headings.
    Heading,
    /// `DD.MM.YYYY HH:MM:SS`, for log entries.
    Log,
}

/// The fields of a date and a time of day, each as the text that a stamp
/// shows of it.
pub struct TimeText {
    pub day: Seq<char>,
    pub month: Seq<char>,
    pub year: Seq<char>,
    pub hour: Seq<char>,
    pub minute: Seq<char>,
    pub second: Seq<char>,
}

/// Two decimal digits.
pub open spec fn is_two_digits(s: Seq<char>) -> bool {
    s.len() == 2 && is_digit(s[0]) && is_digit(s[1])
}

/// The text of a year: four digits, or a sign and at least four digits
/// where four digits cannot show the year.
pub open spec fn is_year(s: Seq<char>) -> bool {
    &&& s.len() >= 4
    &&& forall|i: int| 1 <= i < s.len() ==> is_digit(#[trigger] s[i])
    &&& {
        ||| s.len() == 4 && is_digit(s[0])
        ||| s.len() >= 5 && (s[0] == '+' || s[0] == '-')
    }
}

impl TimeText {
    /// Every field has the width and the characters of its kind.
    pub open spec fn is_well_formed(self) -> bool {
        &&& is_two_digits(self.day)
        &&& is_two_digits(self.month)
        &&& is_year(self.year)
        &&& is_two_digits(self.hour)
        &&& is_two_digits(self.minute)
        &&& is_two_digits(self.second)
    }

    /// The stamp of a style made of the fields.
    pub open spec fn rendered(self, style: StampStyle) -> Seq<char> {
        match style {
            StampStyle::Compact => self.day + self.month + self.year + seq!['_'] + self.hour
                + self.minute + self.second,
            StampStyle::Heading => self.day + seq!['.'] + self.month + seq!['.'] + self.year
                + seq![' ', 'u', 'm', ' '] + self.hour + seq![':'] + self.minute,
            StampStyle::Log => self.day + seq!['.'] + self.month + seq!['.'] + self.year + seq![
                ' ',
            ] + self.hour + seq![':'] + self.minute + seq![':'] + self.second,
        }
    }
}

/// The format string of a style, in the notation of `strftime`.
pub open spec fn pattern_of(style: StampStyle) -> Seq<char> {
    match style {
        StampStyle::Compact => "%d%m%Y_%H%M%S"@,
        StampStyle::Heading => "%d.%m.%Y um %H:%M"@,
        StampStyle::Log => "%d.%m.%Y %H:%M:%S"@,
    }
}

/// `text` is a time stamp of the given style: the stamp of some date and
/// time of day.
pub open spec fn is_stamp(style: StampStyle, text: Seq<char>) -> bool {
    exists|time: TimeText| time.is_well_formed() && text == #[trigger] time.rendered(style)
}

/// Reads the local clock with `chrono::Local::now` and renders it with
/// `DateTime::format`. The contract admits only the format string of a
/// style and claims the shape that chrono's formatter gives it, whatever
/// the clock shows: `%d`, `%m`, `%H`, `%M` and `%S` come out as two
/// digits each, `%Y` as four digits or, outside the years 0 to 9999, as
/// a sign and at least four digits, and every other character of the
/// pattern as itself.
#[verifier::external_body]
fn local_time_text(pattern: &str) -> (text: String)
    requires
        exists|style: StampStyle| pattern@ == #[trigger] pattern_of(style),
    ensures
        forall|style: StampStyle|
            pattern@ == #[trigger] pattern_of(style) ==> is_stamp(style, text@),
{
    chrono::Local::now().format(pattern).to_string()
}

/// The current local time in the given style.
pub fn timestamp(style: StampStyle) -> (text: String)
    ensures
        is_stamp(style, text@),
{
    let pattern = match style {
        StampStyle::Compact => "%d%m%Y_%H%M%S",
        StampStyle::Heading => "%d.%m.%Y um %H:%M",
        StampStyle::Log => "%d.%m.%Y %H:%M:%S",
    };
    assert(pattern@ == pattern_of(style));
    local_time_text(pattern)
}

/// A compact stamp may stand in a file name.
pub proof fn lemma_compact_stamp_is_name_text(text: Seq<char>)
    requires
        is_stamp(StampStyle::Compact, text),
    ensures
        is_name_text(text),
{
    let time = choose|time: TimeText|
        time.is_well_formed() && text == #[trigger] time.rendered(StampStyle::Compact);
    assert forall|i: int| 0 <= i < text.len() implies is_name_char(#[trigger] text[i]) by {
        lemma_stamp_chars(StampStyle::Compact, time, i);
    }
}

/// No stamp of any style holds a line break.
pub proof fn lemma_stamp_is_single_line(style: StampStyle, text: Seq<char>)
    requires
        is_stamp(style, text),
    ensures
        is_single_line(text),
{
    let time = choose|time: TimeText|
        time.is_well_formed() && text == #[trigger] time.rendered(style);
    assert forall|i: int| 0 <= i < text.len() implies #[trigger] text[i] != '\n' && text[i]
        != '\r' by {
        lemma_stamp_chars(style, time, i);
    }
}

/// Every character of a stamp is a digit, a sign, or one of the
/// separators of its style.
proof fn lemma_stamp_chars(style: StampStyle, time: TimeText, i: int)
    requires
        time.is_well_formed(),
        0 <= i < time.rendered(style).len(),
    ensures
        ({
            let c = time.rendered(style)[i];
            ||| is_digit(c)
            ||| c == '+'
            ||| c == '-'
            ||| style == StampStyle::Compact && c == '_'
            ||| style != StampStyle::Compact && (c == '.' || c == ':' || c == ' ' || c == 'u' || c
                == 'm')
        }),
{
    let year = time.year;
    assert(forall|k: int| 0 <= k < year.len() ==> is_digit(#[trigger] year[k]) || year[k] == '+'
        || year[k] == '-');
}

} // verus!
