use vstd::prelude::*;

use crate::format::{
    decimal, format_signed, format_str, format_unsigned, lemma_decimal_below_100,
    lemma_pad_left_len, pad_left, pad_right, signed_decimal,
};
use crate::graphics::{text_24x32, text_8x16, text_mark, Font, Frame, Mark, Point};
use crate::panel::{height, spec_height, spec_width, width, Panel};

verus! {

/// A day of the week.
#[derive(Clone, Copy, Debug, PartialEq, Eq, Structural)]
pub enum Weekday {
    Mon,
    Tue,
    Wed,
    Thu,
    Fri,
    Sat,
    Sun,
}

/// The three-letter English abbreviation of `day`.
pub open spec fn spec_daystr(day: Weekday) -> Seq<char> {
    match day {
        Weekday::Mon => seq!['M', 'o', 'n'],
        Weekday::Tue => seq!['T', 'u', 'e'],
        Weekday::Wed => seq!['W', 'e', 'd'],
        Weekday::Thu => seq!['T', 'h', 'u'],
        Weekday::Fri => seq!['F', 'r', 'i'],
        Weekday::Sat => seq!['S', 'a', 't'],
        Weekday::Sun => seq!['S', 'u', 'n'],
    }
}

/// The three-letter English abbreviation of `day`.
pub fn daystr(day: &Weekday) -> (s: &'static str)
    ensures
        s@ == spec_daystr(*day),
        s@.len() == 3,
{
    proof {
        reveal_strlit("Mon");
        reveal_strlit("Tue");
        reveal_strlit("Wed");
        reveal_strlit("Thu");
        reveal_strlit("Fri");
        reveal_strlit("Sat");
        reveal_strlit("Sun");
    }
    match day {
        Weekday::Mon => "Mon",
        Weekday::Tue => "Tue",
        Weekday::Wed => "Wed",
        Weekday::Thu => "Thu",
        Weekday::Fri => "Fri",
        Weekday::Sat => "Sat",
        Weekday::Sun => "Sun",
    }
}

/// A reading of the local wall clock, broken into the fields the display
/// shows.
#[derive(Clone, Copy, Debug, PartialEq, Eq, Structural)]
pub struct LocalTime {
    pub year: i32,
    /// 1 to 12.
    pub month: u32,
    /// Day of the month, from 1.
    pub day: u32,
    pub weekday: Weekday,
    /// Day of the year, from 1.
    pub ordinal: u32,
    /// 0 to 23.
    pub hour: u32,
    pub minute: u32,
}

/// The date block: on the 4.2 inch panel "yyyy/mm/dd" over the weekday and
/// the day of the year, on the 2.9 inch panel "mm/dd" over the weekday;
/// numbers right-aligned and space-padded in their fields.
pub open spec fn date_text(panel: Panel, t: LocalTime) -> Seq<char> {
    match panel {
        Panel::Epd4in2 => pad_left(signed_decimal(t.year as int), 4, ' ') + seq!['/'] + pad_left(
            decimal(t.month as nat),
            2,
            ' ',
        ) + seq!['/'] + pad_left(decimal(t.day as nat), 2, ' ') + seq!['\n', ' ', ' ', ' ']
            + pad_right(spec_daystr(t.weekday), 3, ' ') + seq!['/'] + pad_left(
            decimal(t.ordinal as nat),
            3,
            ' ',
        ),
        Panel::Epd2in9 => pad_left(decimal(t.month as nat), 2, ' ') + seq!['/'] + pad_left(
            decimal(t.day as nat),
            2,
            ' ',
        ) + seq!['\n', ' ', ' '] + pad_right(spec_daystr(t.weekday), 3, ' '),
    }
}

/// The clock: the hour right-aligned in two characters, a colon and the
/// minute as two digits.
pub open spec fn clock_text(t: LocalTime) -> Seq<char> {
    pad_left(decimal(t.hour as nat), 2, ' ') + seq![':'] + pad_left(decimal(t.minute as nat), 2, '0')
}

/// Where the date block goes: the top right corner.
pub open spec fn date_position(panel: Panel) -> Point {
    match panel {
        Panel::Epd4in2 => Point { x: (spec_width(panel) - 80) as i32, y: 0 },
        Panel::Epd2in9 => Point { x: (spec_width(panel) - 40) as i32, y: 0 },
    }
}

/// Where the clock goes: left of the middle, below the top.
pub open spec fn clock_position(panel: Panel) -> Point {
    match panel {
        Panel::Epd4in2 => Point { x: (spec_width(panel) / 2 - 60) as i32, y: 40 },
        Panel::Epd2in9 => Point {
            x: (spec_width(panel) / 2 - 60) as i32,
            y: (spec_height(panel) / 3) as i32,
        },
    }
}

/// What `time` draws: the date block in the 8x16 font, then the clock in the
/// 24x32 font.
pub open spec fn time_marks(panel: Panel, t: LocalTime) -> Seq<Mark> {
    seq![
        text_mark(date_text(panel, t), date_position(panel), Font::Font8x16),
        text_mark(clock_text(t), clock_position(panel), Font::Font24x32),
    ]
}

/// The date block of `local` for `panel`.
fn format_date(panel: Panel, local: &LocalTime) -> (s: String)
    ensures
        s@ == date_text(panel, *local),
{
    proof {
        reveal_strlit("/");
        reveal_strlit("\n   ");
        reveal_strlit("\n  ");
    }
    let day = format_str(daystr(&local.weekday), 3);
    match panel {
        Panel::Epd4in2 => {
            let mut s = format_signed(local.year as i64, 4);
            s.append("/");
            s.append(format_unsigned(local.month as u64, 2, false).as_str());
            s.append("/");
            s.append(format_unsigned(local.day as u64, 2, false).as_str());
            s.append("\n   ");
            s.append(day.as_str());
            s.append("/");
            s.append(format_unsigned(local.ordinal as u64, 3, false).as_str());
            s
        },
        Panel::Epd2in9 => {
            let mut s = format_unsigned(local.month as u64, 2, false);
            s.append("/");
            s.append(format_unsigned(local.day as u64, 2, false).as_str());
            s.append("\n  ");
            s.append(day.as_str());
            s
        },
    }
}

/// The clock text of `local`.
fn format_clock(local: &LocalTime) -> (s: String)
    ensures
        s@ == clock_text(*local),
{
    proof {
        reveal_strlit(":");
    }
    let mut s = format_unsigned(local.hour as u64, 2, false);
    s.append(":");
    s.append(format_unsigned(local.minute as u64, 2, true).as_str());
    s
}

/// Draws the date and the clock of the reading `local` on `frame`, laid out
/// for `panel`.
pub fn time(frame: &mut Frame, panel: Panel, local: &LocalTime)
    ensures
        final(frame)@ == old(frame)@ + time_marks(panel, *local),
{
    let w = width(panel);
    let date = format_date(panel, local);
    let clock = format_clock(local);
    match panel {
        Panel::Epd4in2 => {
            text_8x16(frame, date.as_str(), Point::new(w - 80, 0));
            text_24x32(frame, clock.as_str(), Point::new(w / 2 - 60, 40));
        },
        Panel::Epd2in9 => {
            let h = height(panel);
            text_8x16(frame, date.as_str(), Point::new(w - 40, 0));
            text_24x32(frame, clock.as_str(), Point::new(w / 2 - 60, h / 3));
        },
    }
    assert(final(frame)@ =~= old(frame)@ + time_marks(panel, *local));
}

/// The clock has a fixed width: for any hour and minute below 100 (a clock
/// reading has hours below 24 and minutes below 60) it is five characters,
/// the colon in the middle, and the minute always shows two digits.
pub proof fn lemma_clock_text_width(t: LocalTime)
    requires
        t.hour < 100,
        t.minute < 100,
    ensures
        clock_text(t).len() == 5,
        clock_text(t)[2] == ':',
        clock_text(t).subrange(3, 5) == pad_left(decimal(t.minute as nat), 2, '0'),
{
    lemma_decimal_below_100(t.hour as nat);
    lemma_decimal_below_100(t.minute as nat);
    lemma_pad_left_len(decimal(t.hour as nat), 2, ' ');
    lemma_pad_left_len(decimal(t.minute as nat), 2, '0');
    assert(clock_text(t).subrange(3, 5) =~= pad_left(decimal(t.minute as nat), 2, '0'));
}

} // verus!
