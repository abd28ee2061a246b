use nidus::format::{decimal_string, format_signed, format_str, format_unsigned, signed_decimal_string};
use nidus::{daystr, time, Color, Drawing, Font, Frame, LocalTime, Panel, Point, Weekday};

fn texts(frame: &Frame) -> Vec<(String, Point, Font)> {
    frame
        .drawings
        .iter()
        .map(|d| match d {
            Drawing::Text(t) => {
                assert_eq!(t.style.text_color, Color::Black);
                assert_eq!(t.style.background_color, Color::White);
                (t.text.clone(), t.top_left, t.style.font)
            }
            other => panic!("expected a text, got {:?}", other),
        })
        .collect()
}

fn sample() -> LocalTime {
    LocalTime {
        year: 2021,
        month: 3,
        day: 7,
        weekday: Weekday::Sun,
        ordinal: 66,
        hour: 9,
        minute: 5,
    }
}

#[test]
fn daystr_names_every_day() {
    let all = [
        (Weekday::Mon, "Mon"),
        (Weekday::Tue, "Tue"),
        (Weekday::Wed, "Wed"),
        (Weekday::Thu, "Thu"),
        (Weekday::Fri, "Fri"),
        (Weekday::Sat, "Sat"),
        (Weekday::Sun, "Sun"),
    ];
    for (day, name) in all.iter() {
        assert_eq!(daystr(day), *name);
        assert_eq!(daystr(day).chars().count(), 3);
    }
}

#[test]
fn time_on_the_large_panel() {
    let mut frame = Frame::new();
    time(&mut frame, Panel::Epd4in2, &sample());
    assert_eq!(
        texts(&frame),
        vec![
            ("2021/ 3/ 7\n   Sun/ 66".to_string(), Point { x: 320, y: 0 }, Font::Font8x16),
            (" 9:05".to_string(), Point { x: 140, y: 40 }, Font::Font24x32),
        ]
    );
}

#[test]
fn time_on_the_small_panel() {
    let mut frame = Frame::new();
    time(&mut frame, Panel::Epd2in9, &sample());
    assert_eq!(
        texts(&frame),
        vec![
            (" 3/ 7\n  Sun".to_string(), Point { x: 256, y: 0 }, Font::Font8x16),
            (" 9:05".to_string(), Point { x: 88, y: 42 }, Font::Font24x32),
        ]
    );
}

#[test]
fn time_with_two_digit_fields() {
    let t = LocalTime {
        year: 1999,
        month: 12,
        day: 31,
        weekday: Weekday::Fri,
        ordinal: 365,
        hour: 23,
        minute: 59,
    };
    let mut frame = Frame::new();
    time(&mut frame, Panel::Epd4in2, &t);
    let got = texts(&frame);
    assert_eq!(got[0].0, "1999/12/31\n   Fri/365");
    assert_eq!(got[1].0, "23:59");
}

#[test]
fn time_keeps_earlier_drawings() {
    let mut frame = Frame::new();
    time(&mut frame, Panel::Epd4in2, &sample());
    time(&mut frame, Panel::Epd4in2, &sample());
    assert_eq!(frame.drawings.len(), 4);
}

#[test]
fn the_clock_is_five_characters_at_midnight() {
    let mut t = sample();
    t.hour = 0;
    t.minute = 0;
    let mut frame = Frame::new();
    time(&mut frame, Panel::Epd4in2, &t);
    assert_eq!(texts(&frame)[1].0, " 0:00");
}

#[test]
fn decimal_notation() {
    assert_eq!(decimal_string(0), "0");
    assert_eq!(decimal_string(7), "7");
    assert_eq!(decimal_string(120), "120");
    assert_eq!(decimal_string(u64::MAX), u64::MAX.to_string());
    assert_eq!(signed_decimal_string(-42), "-42");
    assert_eq!(signed_decimal_string(i64::MIN), i64::MIN.to_string());
}

#[test]
fn padding_matches_std_formatting() {
    for n in [0u64, 5, 42, 365, 12345] {
        assert_eq!(format_unsigned(n, 3, false), format!("{:3}", n));
        assert_eq!(format_unsigned(n, 2, true), format!("{:02}", n));
    }
    for n in [-30i64, -5, 0, 7, 2021, 12345] {
        assert_eq!(format_signed(n, 4), format!("{:4}", n));
        assert_eq!(format_signed(n, 3), format!("{:3}", n));
    }
    assert_eq!(format_str("ab", 4), "ab  ");
    assert_eq!(format_str("Mon", 3), "Mon");
    assert_eq!(format_str("°C", 3), "°C ");
}
