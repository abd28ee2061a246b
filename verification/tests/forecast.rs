use nidus::forecast::pos_x as slot_x;
use nidus::{
    day_label, forecast_days, forecast_fits, grid_temps, rectangle, scale, tmp_graph_height, weather_forecast, Color, Drawing, Font, Frame,
    Point, Range,
};

fn text_at(d: &Drawing) -> (String, Point, Font) {
    match d {
        Drawing::Text(t) => {
            assert_eq!(t.style.text_color, Color::Black);
            assert_eq!(t.style.background_color, Color::White);
            (t.text.clone(), t.top_left, t.style.font)
        }
        other => panic!("expected a text, got {:?}", other),
    }
}

fn line_ends(d: &Drawing) -> (Point, Point) {
    match d {
        Drawing::Line(l) => {
            assert_eq!(l.style, nidus::style_def());
            (l.primitive.start, l.primitive.end)
        }
        other => panic!("expected a line, got {:?}", other),
    }
}

fn p(x: i32, y: i32) -> Point {
    Point { x, y }
}

#[test]
fn graph_height_is_120() {
    assert_eq!(tmp_graph_height(), 120);
}

#[test]
fn scale_divides_the_graph_height_by_the_widened_span() {
    // span (10 + 5) - (0 - 5) = 20
    assert_eq!(scale(0, 10), 6);
    // span 10
    assert_eq!(scale(0, 0), 12);
    // span 33, 120 / 33 = 3
    assert_eq!(scale(-3, 20), 3);
}

#[test]
fn scale_is_at_least_one() {
    // span 110: quotient 1
    assert_eq!(scale(-50, 50), 1);
    // span 200: quotient 0
    assert_eq!(scale(-100, 90), 1);
    // span -10: negative quotient
    assert_eq!(scale(20, 0), 1);
}

#[test]
fn pos_x_is_ten_pixels_per_slot() {
    assert_eq!(slot_x(0, 0), 0);
    assert_eq!(slot_x(0, 4), 40);
    assert_eq!(slot_x(1, 4), 120);
    assert_eq!(slot_x(3, 8), 320);
    assert_eq!(slot_x(3, 8), slot_x(0, 32));
    assert_eq!(slot_x(2, 5), slot_x(0, 21));
}

#[test]
fn range_with_negative_minimum_lifts_the_zero_line() {
    let r = Range::new(-10, 0, Some(25));
    // span 20 -> 6 pixels per degree; 15 degrees below zero plus 25 pixels
    assert_eq!(r, Range { scale: 6, offset: 25 + 15 * 6 });
    assert_eq!(r.pos_y(0), -115);
    assert_eq!(r.pos_y(-10), 60 - 115);
    assert_eq!(r.pos_y(5), -30 - 115);
}

#[test]
fn range_with_non_negative_minimum_keeps_the_basic_offset() {
    // span (10 + 5) - (3 - 5) = 17, 120 / 17 = 7
    assert_eq!(Range::new(3, 10, None), Range { scale: 7, offset: 0 });
    assert_eq!(Range::new(0, 10, Some(25)), Range { scale: 6, offset: 25 });
}

#[test]
fn warmer_is_drawn_higher() {
    let r = Range::new(-5, 25, Some(25));
    let mut last = r.pos_y(-5);
    for t in -4..=25 {
        let y = r.pos_y(t);
        assert!(y < last);
        last = y;
    }
}

#[test]
fn negative_ranges_fit_the_graph_box() {
    let r = Range::new(-8, 12, Some(25));
    for t in -8..=12 {
        let y = 300 + r.pos_y(t);
        assert!(300 - 145 <= y && y < 300 - 25, "{} drawn at {}", t, y);
    }
}

#[test]
fn positive_ranges_can_leave_the_graph_box() {
    // The law above needs a minimum below zero: here 25 degrees is drawn
    // above the top edge of the box.
    let r = Range::new(20, 25, Some(25));
    assert!(300 + r.pos_y(25) < 300 - 145);
}

#[test]
fn grid_temps_are_the_visible_multiples_of_ten() {
    assert_eq!(grid_temps(-3, 20), vec![0, 10, 20]);
    assert_eq!(grid_temps(20, 25), vec![20, 30]);
    assert_eq!(grid_temps(-40, 60), vec![-30, -20, -10, 0, 10, 20, 30, 40, 50]);
    assert_eq!(grid_temps(-2, 8), vec![0, 10]);
    assert_eq!(grid_temps(100, 200), Vec::<i32>::new());
    // the widened span -45..=-35 holds no candidate, -40..=-30 holds -30
    assert_eq!(grid_temps(-40, -40), Vec::<i32>::new());
    assert_eq!(grid_temps(-35, -35), vec![-30]);
}

#[test]
fn forecast_layout() {
    let mut frame = Frame::new();
    let labels = vec!["a".to_string(), "b".to_string()];
    weather_forecast(&mut frame, 3, &labels, -2, 8, &vec![4, -2, 8]);
    let d = &frame.drawings;
    assert_eq!(d.len(), 10);
    // one label per day, below the middle of its slots
    assert_eq!(text_at(&d[0]), ("a".to_string(), p(40, 280), Font::Font6x8));
    assert_eq!(text_at(&d[1]), ("b".to_string(), p(120, 280), Font::Font6x8));
    // the graph box
    match &d[2] {
        Drawing::Rectangle(r) => assert_eq!(*r, rectangle(p(0, 155), p(400, 275))),
        other => panic!("expected the box, got {:?}", other),
    }
    // scale 6, offset 25 + 7 * 6 = 67, so t is drawn at 300 - 6 t - 67
    assert_eq!(line_ends(&d[3]), (p(35, 215), p(45, 209)));
    assert_eq!(line_ends(&d[4]), (p(45, 209), p(55, 245)));
    assert_eq!(line_ends(&d[5]), (p(55, 245), p(65, 185)));
    // grid lines at 0 and 10 degrees
    assert_eq!(text_at(&d[6]), ("  0°C".to_string(), p(0, 233), Font::Font6x8));
    assert_eq!(line_ends(&d[7]), (p(35, 233), p(355, 233)));
    assert_eq!(text_at(&d[8]), (" 10°C".to_string(), p(0, 173), Font::Font6x8));
    assert_eq!(line_ends(&d[9]), (p(35, 173), p(355, 173)));
}

#[test]
fn forecast_with_negative_grid_labels() {
    let mut frame = Frame::new();
    weather_forecast(&mut frame, -12, &Vec::new(), -12, -12, &Vec::new());
    // span 10 -> scale 12, offset 25 + 17 * 12 = 229; grid at -10 only,
    // drawn at 300 + 120 - 229
    let d = &frame.drawings;
    assert_eq!(d.len(), 3);
    assert_eq!(text_at(&d[1]), ("-10°C".to_string(), p(0, 191), Font::Font6x8));
    assert_eq!(line_ends(&d[2]), (p(35, 191), p(355, 191)));
}

#[test]
fn forecast_lines_match_the_line_helper() {
    let mut frame = Frame::new();
    weather_forecast(&mut frame, 0, &Vec::new(), 0, 0, &vec![1]);
    let r = Range::new(0, 0, Some(25));
    let expected = nidus::graphics::line(p(0, r.pos_y(0)), p(10, r.pos_y(1))).translate(p(35, 300));
    match &frame.drawings[1] {
        Drawing::Line(l) => assert_eq!(*l, expected),
        other => panic!("expected a line, got {:?}", other),
    }
}

#[test]
fn forecast_fits_ordinary_weather() {
    assert!(forecast_fits(4, 3, -2, 8, &vec![4, -2, 8]));
    assert!(forecast_fits(0, -30, -30, 45, &vec![-30; 32]));
}

#[test]
fn forecast_fits_rejects_a_zero_span() {
    // (0 + 5) - (10 - 5) = 0: the scale would divide by zero
    assert!(!forecast_fits(0, 0, 10, 0, &Vec::new()));
}

#[test]
fn forecast_fits_rejects_overflowing_temperatures() {
    assert!(!forecast_fits(0, 0, 0, 10, &vec![i32::MAX]));
    assert!(!forecast_fits(0, i32::MIN, 0, 10, &Vec::new()));
    assert!(!forecast_fits(0, 0, i32::MIN, 10, &Vec::new()));
}

#[test]
fn forecast_fits_bounds_the_number_of_day_labels() {
    assert!(forecast_fits(26843546, 0, 0, 10, &Vec::new()));
    assert!(!forecast_fits(26843547, 0, 0, 10, &Vec::new()));
}

#[test]
fn day_label_shows_minimum_over_maximum() {
    assert_eq!(
        day_label(&format!("{:6.2}", -3.5f32), &format!("{:6.2}", 12.25f32)),
        " -3.50°C\n 12.25°C"
    );
}

#[test]
fn forecast_days_groups_eight_slots_per_day() {
    assert_eq!(forecast_days(0), Vec::<(usize, usize)>::new());
    assert_eq!(forecast_days(5), vec![(0, 5)]);
    assert_eq!(forecast_days(8), vec![(0, 8)]);
    assert_eq!(forecast_days(19), vec![(0, 8), (8, 16), (16, 19)]);
    // a five-day forecast has 40 slots; only four days are shown
    assert_eq!(forecast_days(40), vec![(0, 8), (8, 16), (16, 24), (24, 32)]);
    assert_eq!(forecast_days(33), vec![(0, 8), (8, 16), (16, 24), (24, 32)]);
}
