use nidus::{
    draw_text, height, rectangle, style_def, text_12x16, text_24x32, text_6x12, text_6x8,
    text_8x16, Color, Drawing, Font, Frame, Line, Panel, Point, PrimitiveStyle, Rectangle,
    StyledLine, StyledRectangle, TextStyle, width,
};

fn only_text(frame: &Frame) -> (String, Point, TextStyle) {
    assert_eq!(frame.drawings.len(), 1);
    match &frame.drawings[0] {
        Drawing::Text(t) => (t.text.clone(), t.top_left, t.style),
        other => panic!("expected a text, got {:?}", other),
    }
}

fn black_on_white(font: Font) -> TextStyle {
    TextStyle { font, text_color: Color::Black, background_color: Color::White }
}

#[test]
fn panel_sizes_follow_the_driver_constants() {
    assert_eq!(height(Panel::Epd4in2), 300);
    assert_eq!(width(Panel::Epd4in2), 400);
    // The 2.9 inch panel is used turned by 90 degrees.
    assert_eq!(height(Panel::Epd2in9), 128);
    assert_eq!(width(Panel::Epd2in9), 296);
}

#[test]
fn style_def_is_a_thin_black_stroke() {
    assert_eq!(
        style_def(),
        PrimitiveStyle { fill_color: None, stroke_color: Some(Color::Black), stroke_width: 1 }
    );
}

#[test]
fn line_uses_the_default_style() {
    let l = nidus::graphics::line(Point::new(1, 2), Point::new(3, 4));
    assert_eq!(
        l,
        StyledLine {
            primitive: Line { start: Point { x: 1, y: 2 }, end: Point { x: 3, y: 4 } },
            style: style_def(),
        }
    );
}

#[test]
fn rectangle_is_filled_white_without_outline() {
    let r = rectangle(Point::new(0, 155), Point::new(400, 275));
    assert_eq!(
        r,
        StyledRectangle {
            primitive: Rectangle {
                top_left: Point { x: 0, y: 155 },
                bottom_right: Point { x: 400, y: 275 },
            },
            style: PrimitiveStyle {
                fill_color: Some(Color::White),
                stroke_color: None,
                stroke_width: 0,
            },
        }
    );
}

#[test]
fn translate_moves_both_ends_and_keeps_the_style() {
    let l = nidus::graphics::line(Point::new(10, -5), Point::new(20, -30)).translate(Point::new(35, 300));
    assert_eq!(l.primitive.start, Point { x: 45, y: 295 });
    assert_eq!(l.primitive.end, Point { x: 55, y: 270 });
    assert_eq!(l.style, style_def());
}

#[test]
fn point_shift_adds_coordinates() {
    assert_eq!(Point::new(-3, 7).shift(Point::new(5, -10)), Point { x: 2, y: -3 });
}

#[test]
fn drawing_appends_in_order() {
    let mut frame = Frame::new();
    assert!(frame.drawings.is_empty());
    nidus::graphics::line(Point::new(0, 0), Point::new(1, 1)).draw(&mut frame);
    rectangle(Point::new(0, 0), Point::new(2, 2)).draw(&mut frame);
    text_6x8(&mut frame, "x", Point::new(5, 6));
    assert_eq!(frame.drawings.len(), 3);
    assert!(matches!(frame.drawings[0], Drawing::Line(_)));
    assert!(matches!(frame.drawings[1], Drawing::Rectangle(_)));
    assert!(matches!(frame.drawings[2], Drawing::Text(_)));
}

#[test]
fn draw_text_places_black_text_on_white() {
    let mut frame = Frame::new();
    draw_text(&mut frame, "Hello", Point::new(7, 9), Font::Font12x16);
    let (text, at, style) = only_text(&frame);
    assert_eq!(text, "Hello");
    assert_eq!(at, Point { x: 7, y: 9 });
    assert_eq!(style, black_on_white(Font::Font12x16));
}

#[test]
fn each_text_helper_uses_its_font() {
    let cases: [(fn(&mut Frame, &str, Point), Font); 5] = [
        (text_6x8, Font::Font6x8),
        (text_6x12, Font::Font6x12),
        (text_8x16, Font::Font8x16),
        (text_12x16, Font::Font12x16),
        (text_24x32, Font::Font24x32),
    ];
    for (draw, font) in cases.iter() {
        let mut frame = Frame::new();
        draw(&mut frame, "abc", Point::new(1, 2));
        let (text, at, style) = only_text(&frame);
        assert_eq!(text, "abc");
        assert_eq!(at, Point { x: 1, y: 2 });
        assert_eq!(style, black_on_white(*font));
    }
}
