use vstd::prelude::*;

verus! {

/// The two colours of the e-paper panel. Black is the "on" pixel colour,
/// white the "off" one.
#[derive(Clone, Copy, Debug, PartialEq, Eq, Structural)]
pub enum Color {
    White,
    Black,
}

/// A pixel position; `x` grows to the right, `y` downwards.
#[derive(Clone, Copy, Debug, PartialEq, Eq, Structural)]
pub struct Point {
    pub x: i32,
    pub y: i32,
}

impl Point {
    pub fn new(x: i32, y: i32) -> (p: Point)
        ensures
            p == (Point { x, y }),
    {
        Point { x, y }
    }

    /// Whether `self + by` can be computed without leaving the `i32` range.
    pub open spec fn can_shift(self, by: Point) -> bool {
        &&& i32::MIN <= self.x + by.x <= i32::MAX
        &&& i32::MIN <= self.y + by.y <= i32::MAX
    }

    /// The point moved by the vector `by`.
    pub open spec fn shifted(self, by: Point) -> Point {
        Point { x: (self.x + by.x) as i32, y: (self.y + by.y) as i32 }
    }

    /// The point moved by the vector `by` (coordinate-wise sum).
    pub fn shift(self, by: Point) -> (p: Point)
        requires
            self.can_shift(by),
        ensures
            p == self.shifted(by),
    {
        Point { x: self.x + by.x, y: self.y + by.y }
    }
}

/// How a line or a rectangle is painted.
#[derive(Clone, Copy, Debug, PartialEq, Eq, Structural)]
pub struct PrimitiveStyle {
    /// Colour of the interior; `None` leaves it unpainted.
    pub fill_color: Option<Color>,
    /// Colour of the outline; `None` leaves it unpainted.
    pub stroke_color: Option<Color>,
    /// Width of the outline in pixels; 0 draws no outline.
    pub stroke_width: u32,
}

/// A straight line between two points.
#[derive(Clone, Copy, Debug, PartialEq, Eq, Structural)]
pub struct Line {
    pub start: Point,
    pub end: Point,
}

/// An axis-parallel rectangle given by two opposite corners.
#[derive(Clone, Copy, Debug, PartialEq, Eq, Structural)]
pub struct Rectangle {
    pub top_left: Point,
    pub bottom_right: Point,
}

/// A line together with the style it is painted in.
#[derive(Clone, Copy, Debug, PartialEq, Eq, Structural)]
pub struct StyledLine {
    pub primitive: Line,
    pub style: PrimitiveStyle,
}

/// A rectangle together with the style it is painted in.
#[derive(Clone, Copy, Debug, PartialEq, Eq, Structural)]
pub struct StyledRectangle {
    pub primitive: Rectangle,
    pub style: PrimitiveStyle,
}

/// The monospaced bitmap fonts of the panel, named by their glyph size
/// (width x height in pixels).
#[derive(Clone, Copy, Debug, PartialEq, Eq, Structural)]
pub enum Font {
    Font6x8,
    /// Covers fewer ASCII characters than the other fonts.
    Font6x12,
    Font8x16,
    Font12x16,
    Font24x32,
}

/// Font and colours of a text.
#[derive(Clone, Copy, Debug, PartialEq, Eq, Structural)]
pub struct TextStyle {
    pub font: Font,
    pub text_color: Color,
    pub background_color: Color,
}

/// A text placed with its top-left corner at `top_left`.
#[derive(Debug)]
pub struct Text {
    pub text: String,
    pub top_left: Point,
    pub style: TextStyle,
}

/// One drawing operation on the panel.
#[derive(Debug)]
pub enum Drawing {
    Text(Text),
    Line(StyledLine),
    Rectangle(StyledRectangle),
}

/// A drawing operation with its text taken by value: what a `Drawing` means.
pub enum Mark {
    Text(Seq<char>, Point, TextStyle),
    Line(StyledLine),
    Rectangle(StyledRectangle),
}

impl View for Drawing {
    type V = Mark;

    open spec fn view(&self) -> Mark {
        match self {
            Drawing::Text(t) => Mark::Text(t.text@, t.top_left, t.style),
            Drawing::Line(l) => Mark::Line(*l),
            Drawing::Rectangle(r) => Mark::Rectangle(*r),
        }
    }
}

/// The drawing operations issued on one display buffer, in order. Later
/// operations paint over earlier ones.
#[derive(Debug)]
pub struct Frame {
    pub drawings: Vec<Drawing>,
}

impl View for Frame {
    type V = Seq<Mark>;

    open spec fn view(&self) -> Seq<Mark> {
        self.drawings@.map_values(|d: Drawing| d@)
    }
}

impl Frame {
    /// A frame on which nothing has been drawn yet.
    pub fn new() -> (f: Frame)
        ensures
            f@ == Seq::<Mark>::empty(),
    {
        let f = Frame { drawings: Vec::new() };
        assert(f@ =~= Seq::<Mark>::empty());
        f
    }

    /// Issues one more drawing operation.
    pub fn push(&mut self, d: Drawing)
        ensures
            final(self)@ == old(self)@.push(d@),
    {
        self.drawings.push(d);
        assert(self@ =~= old(self)@.push(d@));
    }
}

/// The text style of every text on the panel: black glyphs on white.
pub open spec fn spec_text_style(font: Font) -> TextStyle {
    TextStyle { font, text_color: Color::Black, background_color: Color::White }
}

/// The style of the station's lines: a black stroke one pixel wide.
pub open spec fn spec_style_def() -> PrimitiveStyle {
    PrimitiveStyle { fill_color: None, stroke_color: Some(Color::Black), stroke_width: 1 }
}

/// The style of the station's rectangles: filled white, no outline.
pub open spec fn spec_rectangle_style() -> PrimitiveStyle {
    PrimitiveStyle { fill_color: Some(Color::White), stroke_color: None, stroke_width: 0 }
}

/// The mark left by a text drawn in `font` at `top_left`.
pub open spec fn text_mark(text: Seq<char>, top_left: Point, font: Font) -> Mark {
    Mark::Text(text, top_left, spec_text_style(font))
}

/// The mark left by a default-styled line from `start` to `end`.
pub open spec fn line_mark(start: Point, end: Point) -> Mark {
    Mark::Line(StyledLine { primitive: Line { start, end }, style: spec_style_def() })
}

/// The mark left by a white rectangle between the two corners.
pub open spec fn rectangle_mark(top_left: Point, bottom_right: Point) -> Mark {
    Mark::Rectangle(
        StyledRectangle {
            primitive: Rectangle { top_left, bottom_right },
            style: spec_rectangle_style(),
        },
    )
}

/// The style of the station's lines: a black stroke one pixel wide.
pub fn style_def() -> (s: PrimitiveStyle)
    ensures
        s == spec_style_def(),
{
    PrimitiveStyle { fill_color: None, stroke_color: Some(Color::Black), stroke_width: 1 }
}

/// A line from `start` to `end` in the default style.
pub fn line(start: Point, end: Point) -> (l: StyledLine)
    ensures
        l == (StyledLine { primitive: Line { start, end }, style: spec_style_def() }),
{
    StyledLine { primitive: Line { start, end }, style: style_def() }
}

/// A white, filled rectangle between `start` (top left) and `end` (bottom right).
pub fn rectangle(start: Point, end: Point) -> (r: StyledRectangle)
    ensures
        r == (StyledRectangle {
            primitive: Rectangle { top_left: start, bottom_right: end },
            style: spec_rectangle_style(),
        }),
{
    StyledRectangle {
        primitive: Rectangle { top_left: start, bottom_right: end },
        style: PrimitiveStyle { fill_color: Some(Color::White), stroke_color: None, stroke_width: 0 },
    }
}

impl StyledLine {
    /// Whether both end points can be moved by `by` within the `i32` range.
    pub open spec fn can_translate(self, by: Point) -> bool {
        self.primitive.start.can_shift(by) && self.primitive.end.can_shift(by)
    }

    /// The line moved by `by`, style unchanged.
    pub open spec fn translated(self, by: Point) -> StyledLine {
        StyledLine {
            primitive: Line {
                start: self.primitive.start.shifted(by),
                end: self.primitive.end.shifted(by),
            },
            style: self.style,
        }
    }

    /// The line moved by `by`: both end points are shifted, the style is kept.
    pub fn translate(&self, by: Point) -> (l: StyledLine)
        requires
            self.can_translate(by),
        ensures
            l == self.translated(by),
    {
        StyledLine {
            primitive: Line { start: self.primitive.start.shift(by), end: self.primitive.end.shift(by) },
            style: self.style,
        }
    }

    /// Draws the line on `frame`.
    pub fn draw(&self, frame: &mut Frame)
        ensures
            final(frame)@ == old(frame)@.push(Mark::Line(*self)),
    {
        frame.push(Drawing::Line(*self));
    }
}

impl StyledRectangle {
    /// Draws the rectangle on `frame`.
    pub fn draw(&self, frame: &mut Frame)
        ensures
            final(frame)@ == old(frame)@.push(Mark::Rectangle(*self)),
    {
        frame.push(Drawing::Rectangle(*self));
    }
}

/// Draws `text` with its top-left corner at `top_left`, in `font`, black on white.
pub fn draw_text(frame: &mut Frame, text: &str, top_left: Point, font: Font)
    ensures
        final(frame)@ == old(frame)@.push(text_mark(text@, top_left, font)),
{
    let style = TextStyle { font, text_color: Color::Black, background_color: Color::White };
    frame.push(Drawing::Text(Text { text: text.to_owned(), top_left, style }));
}

/// Draws `text` in the 6x8 font.
pub fn text_6x8(frame: &mut Frame, text: &str, top_left: Point)
    ensures
        final(frame)@ == old(frame)@.push(text_mark(text@, top_left, Font::Font6x8)),
{
    draw_text(frame, text, top_left, Font::Font6x8);
}

/// Draws `text` in the 6x12 font, which covers fewer ASCII characters.
pub fn text_6x12(frame: &mut Frame, text: &str, top_left: Point)
    ensures
        final(frame)@ == old(frame)@.push(text_mark(text@, top_left, Font::Font6x12)),
{
    draw_text(frame, text, top_left, Font::Font6x12);
}

/// Draws `text` in the 8x16 font.
pub fn text_8x16(frame: &mut Frame, text: &str, top_left: Point)
    ensures
        final(frame)@ == old(frame)@.push(text_mark(text@, top_left, Font::Font8x16)),
{
    draw_text(frame, text, top_left, Font::Font8x16);
}

/// Draws `text` in the 12x16 font.
pub fn text_12x16(frame: &mut Frame, text: &str, top_left: Point)
    ensures
        final(frame)@ == old(frame)@.push(text_mark(text@, top_left, Font::Font12x16)),
{
    draw_text(frame, text, top_left, Font::Font12x16);
}

/// Draws `text` in the 24x32 font.
pub fn text_24x32(frame: &mut Frame, text: &str, top_left: Point)
    ensures
        final(frame)@ == old(frame)@.push(text_mark(text@, top_left, Font::Font24x32)),
{
    draw_text(frame, text, top_left, Font::Font24x32);
}

} // verus!
