use vstd::prelude::*;

use crate::format::{format_signed, pad_left, signed_decimal};
use crate::graphics::{
    line, line_mark, rectangle, rectangle_mark, text_6x8, text_mark, Font, Frame, Mark, Point,
};
use crate::panel::{height, spec_height, spec_width, width, Panel};

verus! {

/// Whether `x` is an `i32` value.
pub open spec fn fits_i32(x: int) -> bool {
    i32::MIN <= x <= i32::MAX
}

/// Height in pixels of the box that holds the temperature graph.
pub open spec fn spec_tmp_graph_height() -> int {
    120
}

/// Height in pixels of the box that holds the temperature graph.
pub fn tmp_graph_height() -> (h: i32)
    ensures
        h == spec_tmp_graph_height(),
{
    120
}

/// The temperature span, in degrees, that the graph box has to show: the
/// extremes widened by 5 degrees on either side.
pub open spec fn scale_span(min: int, max: int) -> int {
    (max + 5) - (min - 5)
}

/// Whether `scale(min, max)` computes without overflow or division by zero.
pub open spec fn scale_defined(min: int, max: int) -> bool {
    &&& fits_i32(min - 5)
    &&& fits_i32(max + 5)
    &&& fits_i32(scale_span(min, max))
    &&& scale_span(min, max) != 0
}

/// Pixels per degree: the graph height divided by the span (rounded toward
/// zero), but at least 1. A negative span gives a non-positive quotient,
/// hence 1.
pub open spec fn spec_scale(min: int, max: int) -> int {
    let span = scale_span(min, max);
    if span > 0 && spec_tmp_graph_height() / span > 1 {
        spec_tmp_graph_height() / span
    } else {
        1
    }
}

/// Pixels per degree of the temperature graph for temperatures between
/// `min` and `max`.
pub fn scale(min: i32, max: i32) -> (s: i32)
    requires
        scale_defined(min as int, max as int),
    ensures
        s == spec_scale(min as int, max as int),
        1 <= s <= spec_tmp_graph_height(),
        (max + 5) - (min - 5) > 0 && 120int / ((max + 5) - (min - 5)) >= 2 ==> s == 120int / ((max
            + 5) - (min - 5)),
        (max + 5) - (min - 5) > 0 && 120int / ((max + 5) - (min - 5)) < 2 ==> s == 1,
        (max + 5) - (min - 5) < 0 ==> s == 1,
{
    let span = (max + 5) - (min - 5);
    if span <= 0 {
        1
    } else {
        let quotient = tmp_graph_height() / span;
        if quotient <= 1 {
            1
        } else {
            quotient
        }
    }
}

/// Whether `pos_x(day, slot)` computes without overflow.
pub open spec fn pos_x_defined(day: int, slot: int) -> bool {
    &&& 0 <= day * 8 + slot <= usize::MAX
    &&& fits_i32(((day * 8 + slot) as i32) * 10)
}

/// Horizontal position of the `slot`-th three-hour slot of the `day`-th day:
/// 10 pixels per slot, 8 slots per day. The slot count is converted to `i32`
/// by truncation, as the `as` conversion does.
pub open spec fn spec_pos_x(day: int, slot: int) -> int {
    ((day * 8 + slot) as i32) * 10
}

/// Horizontal position of the `slot`-th three-hour slot of the `day`-th day.
pub fn pos_x(day: usize, slot: usize) -> (x: i32)
    requires
        pos_x_defined(day as int, slot as int),
    ensures
        x == spec_pos_x(day as int, slot as int),
{
    let mul: i32 = 10;
    (day * 8 + slot) as i32 * mul
}

/// The vertical mapping of the temperature graph: `scale` pixels per degree,
/// shifted up by `offset` pixels.
#[derive(Clone, Copy, Debug, PartialEq, Eq, Structural)]
pub struct Range {
    pub scale: i32,
    pub offset: i32,
}

/// The offset that `Range::new(min, max, basic_offset)` computes: the basic
/// offset (0 when absent), plus, when `min` is below zero, the height of the
/// `5 - min` degrees below the zero line.
pub open spec fn spec_offset(min: int, max: int, basic_offset: Option<i32>) -> int {
    let basic = match basic_offset {
        Some(b) => b as int,
        None => 0,
    };
    basic + if min < 0 {
        (5 - min) * spec_scale(min, max)
    } else {
        0
    }
}

/// The range that `Range::new(min, max, basic_offset)` computes.
pub open spec fn spec_range(min: int, max: int, basic_offset: Option<i32>) -> Range {
    Range {
        scale: spec_scale(min, max) as i32,
        offset: spec_offset(min, max, basic_offset) as i32,
    }
}

/// Whether `Range::new(min, max, basic_offset)` computes without overflow
/// or division by zero.
pub open spec fn range_defined(min: int, max: int, basic_offset: Option<i32>) -> bool {
    &&& scale_defined(min, max)
    &&& min < 0 ==> fits_i32(5 - min) && fits_i32((5 - min) * spec_scale(min, max))
    &&& fits_i32(spec_offset(min, max, basic_offset))
}

impl Range {
    /// The vertical position of `temp` (already converted to whole degrees)
    /// relative to the bottom of the panel.
    pub open spec fn spec_pos_y(self, temp: int) -> int {
        -(temp * self.scale) - self.offset
    }

    /// Whether `pos_y(temp)` computes without overflow.
    pub open spec fn pos_y_defined(self, temp: int) -> bool {
        &&& fits_i32(temp * self.scale)
        &&& fits_i32(-(temp * self.scale))
        &&& fits_i32(self.spec_pos_y(temp))
    }

    /// The mapping for temperatures between `min` and `max`, lifted by
    /// `basic_offset` pixels.
    pub fn new(min: i32, max: i32, basic_offset: Option<i32>) -> (r: Range)
        requires
            range_defined(min as int, max as int, basic_offset),
        ensures
            r == spec_range(min as int, max as int, basic_offset),
            r.scale >= 1,
            r.offset == match basic_offset {
                Some(b) => b as int,
                None => 0,
            } + if min < 0 {
                (5 - min) * r.scale
            } else {
                0
            },
    {
        let scale = scale(min, max);
        let basic = match basic_offset {
            Some(b) => b,
            None => 0,
        };
        let below_zero = if min < 0 {
            (5 - min) * scale
        } else {
            0
        };
        Range { scale, offset: basic + below_zero }
    }

    /// The vertical position of `temp`, a temperature in whole degrees
    /// (truncated toward zero), relative to the bottom of the panel.
    pub fn pos_y(&self, temp: i32) -> (y: i32)
        requires
            self.pos_y_defined(temp as int),
        ensures
            y == self.spec_pos_y(temp as int),
    {
        -(temp * self.scale) - self.offset
    }
}

/// The `k`-th candidate temperature of the grid lines: -30, -20, ..., 50.
pub open spec fn grid_candidate(k: int) -> int {
    -30 + 10 * k
}

/// Whether a grid line at `t` falls within the drawn span of `min..=max`.
pub open spec fn grid_shows(t: int, min: int, max: int) -> bool {
    min - 5 <= t <= max + 5
}

/// The grid temperatures among the first `k` candidates, in increasing order.
pub open spec fn grid_prefix(k: nat, min: int, max: int) -> Seq<i32>
    decreases k,
{
    if k == 0 {
        seq![]
    } else {
        let before = grid_prefix((k - 1) as nat, min, max);
        let t = grid_candidate(k - 1);
        if grid_shows(t, min, max) {
            before.push(t as i32)
        } else {
            before
        }
    }
}

/// The temperatures that get a grid line: the multiples of 10 from -30 to 50
/// that lie within 5 degrees of `min..=max`, in increasing order.
pub open spec fn spec_grid_temps(min: int, max: int) -> Seq<i32> {
    grid_prefix(9, min, max)
}

/// Every element of the first `k` candidates' grid is a candidate below the
/// `k`-th that is shown; the sequence increases; every shown candidate below
/// the `k`-th is in it.
proof fn lemma_grid_prefix(k: nat, min: int, max: int)
    requires
        k <= 9,
    ensures
        forall|i: int|
            0 <= i < grid_prefix(k, min, max).len() ==> {
                let t = #[trigger] grid_prefix(k, min, max)[i];
                &&& exists|c: int| 0 <= c < k && t == grid_candidate(c)
                &&& t % 10 == 0
                &&& -30 <= t < grid_candidate(k as int)
                &&& grid_shows(t as int, min, max)
            },
        forall|i: int, j: int|
            0 <= i < j < grid_prefix(k, min, max).len() ==> grid_prefix(k, min, max)[i]
                < grid_prefix(k, min, max)[j],
        forall|c: int|
            0 <= c < k && grid_shows(grid_candidate(c), min, max) ==> grid_prefix(
                k,
                min,
                max,
            ).contains(#[trigger] grid_candidate(c) as i32),
    decreases k,
{
    if k > 0 {
        let kk = (k - 1) as nat;
        lemma_grid_prefix(kk, min, max);
        let before = grid_prefix(kk, min, max);
        let t = grid_candidate(kk as int);
        if grid_shows(t, min, max) {
            let after = before.push(t as i32);
            assert(after[before.len() as int] == t as i32);
            assert forall|c: int|
                0 <= c < k && grid_shows(grid_candidate(c), min, max) implies after.contains(
                #[trigger] grid_candidate(c) as i32,
            ) by {
                if c < kk {
                    let w = choose|w: int| 0 <= w < before.len() && before[w] == grid_candidate(c) as i32;
                    assert(after[w] == before[w]);
                } else {
                    assert(after[before.len() as int] == grid_candidate(c) as i32);
                }
            }
            assert forall|i: int|
                0 <= i < after.len() implies exists|c: int|
                0 <= c < k && #[trigger] after[i] == grid_candidate(c) by {
                if i < before.len() {
                    assert(after[i] == before[i]);
                } else {
                    assert(after[i] == grid_candidate(kk as int));
                }
            }
        }
    }
}

/// The temperatures, in increasing order, at which the forecast graph gets a
/// labelled horizontal grid line: the multiples of 10 from -30 to 50 within 5
/// degrees of `abs_min..=abs_max`.
pub fn grid_temps(abs_min: i32, abs_max: i32) -> (g: Vec<i32>)
    requires
        fits_i32(abs_min - 5),
        fits_i32(abs_max + 5),
    ensures
        g@ == spec_grid_temps(abs_min as int, abs_max as int),
        forall|i: int|
            0 <= i < g.len() ==> {
                &&& #[trigger] g[i] % 10 == 0
                &&& -30 <= g[i] <= 50
                &&& abs_min - 5 <= g[i] <= abs_max + 5
            },
        forall|i: int, j: int| 0 <= i < j < g.len() ==> g[i] < g[j],
        forall|k: int|
            0 <= k <= 8 && abs_min - 5 <= #[trigger] (-30 + 10 * k) <= abs_max + 5 ==> g@.contains(
                (-30 + 10 * k) as i32,
            ),
        forall|c: int|
            0 <= c < 9 && grid_shows(grid_candidate(c), abs_min as int, abs_max as int)
                ==> g@.contains(#[trigger] grid_candidate(c) as i32),
{
    let lo = abs_min - 5;
    let hi = abs_max + 5;
    let mut g: Vec<i32> = Vec::new();
    let mut k: i32 = 0;
    while k < 9
        invariant
            0 <= k <= 9,
            lo == abs_min - 5,
            hi == abs_max + 5,
            g@ == grid_prefix(k as nat, abs_min as int, abs_max as int),
        decreases 9 - k,
    {
        let t = -30 + 10 * k;
        if lo <= t && t <= hi {
            g.push(t);
        }
        k = k + 1;
    }
    proof {
        lemma_grid_prefix(9, abs_min as int, abs_max as int);
        assert forall|k: int|
            0 <= k <= 8 && abs_min - 5 <= #[trigger] (-30 + 10 * k) <= abs_max + 5 implies g@.contains(
            (-30 + 10 * k) as i32,
        ) by {
            assert(grid_shows(grid_candidate(k), abs_min as int, abs_max as int));
        }
        assert forall|i: int| 0 <= i < g.len() implies {
            &&& #[trigger] g[i] % 10 == 0
            &&& -30 <= g[i] <= 50
            &&& abs_min - 5 <= g[i] <= abs_max + 5
        } by {
            assert(g@[i] == g[i]);
        }
    }
    g
}

/// Height of the panel the forecast is laid out for: the forecast layout
/// exists for the 4.2 inch panel only.
pub open spec fn forecast_height() -> int {
    spec_height(Panel::Epd4in2)
}

/// Width of the panel the forecast is laid out for.
pub open spec fn forecast_width() -> int {
    spec_width(Panel::Epd4in2)
}

/// Where on the panel the graph mapping `r` draws `temp`: its position
/// relative to the bottom of the panel, moved down by the panel height.
pub open spec fn drawn_y(r: Range, temp: int) -> int {
    r.spec_pos_y(temp) + forecast_height()
}

impl Range {
    /// Whether `temp` can be mapped and moved onto the panel without overflow.
    pub open spec fn draws(self, temp: int) -> bool {
        &&& self.pos_y_defined(temp)
        &&& fits_i32(drawn_y(self, temp))
    }
}

/// The labels of the first `count` days: `labels[d]` in the 6x8 font, below
/// the middle of the day's slots, 20 pixels above the bottom of the panel.
pub open spec fn label_marks(labels: Seq<String>, count: int) -> Seq<Mark> {
    Seq::new(
        count as nat,
        |d: int|
            text_mark(
                labels[d]@,
                Point { x: spec_pos_x(d, 4) as i32, y: (forecast_height() - 20) as i32 },
                Font::Font6x8,
            ),
    )
}

/// The white box behind the graph: the full width of the panel, 120 pixels
/// high, its bottom 25 pixels above the bottom of the panel.
pub open spec fn graph_box_mark() -> Mark {
    rectangle_mark(
        Point { x: 0, y: (forecast_height() - spec_tmp_graph_height() - 25) as i32 },
        Point { x: forecast_width() as i32, y: (forecast_height() - 25) as i32 },
    )
}

/// The temperature the `i`-th graph segment starts from: the current one for
/// the first segment, the previous forecast one after that.
pub open spec fn previous_temp(current: int, temps: Seq<i32>, i: int) -> int {
    if i == 0 {
        current
    } else {
        temps[i - 1] as int
    }
}

/// The first `count` segments of the temperature graph: segment `i` joins the
/// previous temperature at slot `i` to `temps[i]` at slot `i + 1`, moved 35
/// pixels to the right and down by the panel height.
pub open spec fn segment_marks(r: Range, current: int, temps: Seq<i32>, count: int) -> Seq<Mark> {
    Seq::new(
        count as nat,
        |i: int|
            line_mark(
                Point {
                    x: (spec_pos_x(0, i) + 35) as i32,
                    y: drawn_y(r, previous_temp(current, temps, i)) as i32,
                },
                Point {
                    x: (spec_pos_x(0, i + 1) + 35) as i32,
                    y: drawn_y(r, temps[i] as int) as i32,
                },
            ),
    )
}

/// The label of the grid line at `t`: `t` right-aligned in 3 characters,
/// then "°C".
pub open spec fn grid_label(t: int) -> Seq<char> {
    pad_left(signed_decimal(t), 3, ' ') + seq!['°', 'C']
}

/// For each temperature of `g` in turn: its label at the left edge, then a
/// horizontal line across the 32 slots of the graph.
pub open spec fn grid_marks(r: Range, g: Seq<i32>) -> Seq<Mark>
    decreases g.len(),
{
    if g.len() == 0 {
        seq![]
    } else {
        let t = g.last() as int;
        let y = drawn_y(r, t) as i32;
        grid_marks(r, g.drop_last()) + seq![
            text_mark(grid_label(t), Point { x: 0, y }, Font::Font6x8),
            line_mark(Point { x: 35, y }, Point { x: (spec_pos_x(3, 8) + 35) as i32, y }),
        ]
    }
}

/// Everything the forecast draws, in order: the day labels, the graph box,
/// the graph and the grid.
pub open spec fn forecast_marks(
    labels: Seq<String>,
    current: int,
    min: int,
    max: int,
    temps: Seq<i32>,
) -> Seq<Mark> {
    let r = spec_range(min, max, Some(25i32));
    label_marks(labels, labels.len() as int) + seq![graph_box_mark()] + segment_marks(
        r,
        current,
        temps,
        temps.len() as int,
    ) + grid_marks(r, spec_grid_temps(min, max))
}

/// Whether drawing the forecast computes without overflow or division by zero.
pub open spec fn forecast_defined(
    label_count: int,
    current: int,
    min: int,
    max: int,
    temps: Seq<i32>,
) -> bool {
    let r = spec_range(min, max, Some(25i32));
    &&& range_defined(min, max, Some(25i32))
    &&& forall|d: int| 0 <= d < label_count ==> #[trigger] pos_x_defined(d, 4)
    &&& temps.len() * 10 + 35 <= i32::MAX
    &&& r.draws(current)
    &&& forall|i: int| 0 <= i < temps.len() ==> r.draws(#[trigger] temps[i] as int)
    &&& forall|i: int|
        0 <= i < spec_grid_temps(min, max).len() ==> r.draws(
            #[trigger] spec_grid_temps(min, max)[i] as int,
        )
}

/// Whether `x` is an `i32` value.
fn fits(x: i64) -> (b: bool)
    ensures
        b == fits_i32(x as int),
{
    i32::MIN as i64 <= x && x <= i32::MAX as i64
}

/// The range `Range::new(min, max, Some(basic))` computes, when it computes
/// without overflow or division by zero.
fn checked_range(min: i32, max: i32, basic: i32) -> (r: Option<Range>)
    ensures
        r is Some <==> range_defined(min as int, max as int, Some(basic)),
        r matches Some(range) ==> range == spec_range(min as int, max as int, Some(basic)),
{
    let lo = min as i64 - 5;
    let hi = max as i64 + 5;
    let span = hi - lo;
    if !fits(lo) || !fits(hi) || !fits(span) || span == 0 {
        return None;
    }
    let s = scale(min, max);
    let mut shift: i64 = 0;
    if min < 0 {
        let below = 5 - min as i64;
        if !fits(below) {
            return None;
        }
        assert(0 <= below * (s as i64) <= 0x1_0000_0000 * 120) by (nonlinear_arith)
            requires
                0 <= below <= 0x1_0000_0000,
                1 <= s <= 120,
        ;
        let product = below * (s as i64);
        if !fits(product) {
            return None;
        }
        shift = product;
    }
    let offset = basic as i64 + shift;
    if !fits(offset) {
        return None;
    }
    Some(Range::new(min, max, Some(basic)))
}

impl Range {
    /// Whether `temp` can be mapped and moved onto the forecast panel without
    /// overflow.
    fn draws_checked(&self, temp: i32) -> (b: bool)
        requires
            1 <= self.scale <= spec_tmp_graph_height(),
        ensures
            b == self.draws(temp as int),
    {
        assert(-0x1_0000_0000 * 120 <= (temp as i64) * (self.scale as i64) <= 0x1_0000_0000 * 120)
            by (nonlinear_arith)
            requires
                -0x1_0000_0000 <= temp <= 0x1_0000_0000,
                1 <= self.scale <= 120,
        ;
        let product = temp as i64 * self.scale as i64;
        if !fits(product) || !fits(-product) {
            return false;
        }
        let y = -product - self.offset as i64;
        let h = height(Panel::Epd4in2) as i64;
        fits(y) && fits(y + h)
    }
}

/// Whether `count` day labels get horizontal positions without overflow.
fn labels_fit(count: usize) -> (b: bool)
    ensures
        b == forall|d: int| 0 <= d < count ==> #[trigger] pos_x_defined(d, 4),
{
    if count == 0 {
        return true;
    }
    let last = count - 1;
    if last <= 26843545 {
        assert forall|d: int| 0 <= d < count implies #[trigger] pos_x_defined(d, 4) by {
            assert(0 <= d * 8 + 4 <= 214748364);
            assert(((d * 8 + 4) as i32) == d * 8 + 4);
        }
        true
    } else {
        proof {
            let d: int = 26843546;
            assert(((d * 8 + 4) as i32) == 214748372);
            assert(!pos_x_defined(d, 4));
        }
        false
    }
}

/// Whether the forecast with `label_count` day labels and these temperatures
/// can be drawn without overflow or division by zero, i.e. whether
/// `weather_forecast` may be called with them.
pub fn forecast_fits(
    label_count: usize,
    current_temp: i32,
    abs_min: i32,
    abs_max: i32,
    temps: &Vec<i32>,
) -> (b: bool)
    ensures
        b == forecast_defined(
            label_count as int,
            current_temp as int,
            abs_min as int,
            abs_max as int,
            temps@,
        ),
{
    let r = match checked_range(abs_min, abs_max, 25) {
        Some(r) => r,
        None => return false,
    };
    if !labels_fit(label_count) {
        return false;
    }
    if temps.len() > 214748361 {
        return false;
    }
    if !r.draws_checked(current_temp) {
        return false;
    }
    let mut i: usize = 0;
    while i < temps.len()
        invariant
            i <= temps.len(),
            1 <= r.scale <= spec_tmp_graph_height(),
            r == spec_range(abs_min as int, abs_max as int, Some(25i32)),
            forall|j: int| 0 <= j < i ==> r.draws(#[trigger] temps[j] as int),
        decreases temps.len() - i,
    {
        if !r.draws_checked(temps[i]) {
            return false;
        }
        i = i + 1;
    }
    let grid = grid_temps(abs_min, abs_max);
    let mut k: usize = 0;
    while k < grid.len()
        invariant
            k <= grid.len(),
            1 <= r.scale <= spec_tmp_graph_height(),
            r == spec_range(abs_min as int, abs_max as int, Some(25i32)),
            grid@ == spec_grid_temps(abs_min as int, abs_max as int),
            forall|j: int| 0 <= j < k ==> r.draws(#[trigger] grid@[j] as int),
        decreases grid.len() - k,
    {
        if !r.draws_checked(grid[k]) {
            return false;
        }
        k = k + 1;
    }
    true
}

/// The label of a forecast day: its minimum and maximum temperature
/// (already written out as numbers), each followed by "°C", on two lines.
pub open spec fn day_label_text(min: Seq<char>, max: Seq<char>) -> Seq<char> {
    min + seq!['°', 'C', '\n'] + max + seq!['°', 'C']
}

/// The label of a forecast day from its minimum and maximum temperature.
pub fn day_label(min: &str, max: &str) -> (s: String)
    ensures
        s@ == day_label_text(min@, max@),
{
    proof {
        reveal_strlit("°C\n");
        reveal_strlit("°C");
        assert("°C\n"@ == seq!['°', 'C', '\n']);
        assert("°C"@ == seq!['°', 'C']);
    }
    let mut s = min.to_owned();
    s.append("°C\n");
    s.append(max);
    s.append("°C");
    assert(s@ =~= day_label_text(min@, max@));
    s
}

/// Number of three-hour slots per forecast day.
pub open spec fn slots_per_day() -> int {
    8
}

/// Number of days the forecast shows.
pub open spec fn forecast_day_limit() -> int {
    4
}

/// How many days `slot_count` consecutive slots make, counting a last
/// incomplete day, at most four.
pub open spec fn spec_day_count(slot_count: int) -> int {
    let days = (slot_count + 7) / 8;
    if days < 4 {
        days
    } else {
        4
    }
}

/// The slots of the `d`-th day: from `8 * d` up to (excluding) the next
/// day's first slot or the end of the forecast.
pub open spec fn spec_day_slots(slot_count: int, d: int) -> (usize, usize) {
    let end = if 8 * d + 8 < slot_count {
        8 * d + 8
    } else {
        slot_count
    };
    ((8 * d) as usize, end as usize)
}

/// The forecast days of `slot_count` three-hour slots: consecutive groups of
/// eight slots, the last one possibly shorter, at most four days. Each day
/// is given by its first slot and the slot after its last.
pub fn forecast_days(slot_count: usize) -> (days: Vec<(usize, usize)>)
    ensures
        days.len() == spec_day_count(slot_count as int),
        forall|d: int| 0 <= d < days.len() ==> #[trigger] days[d] == spec_day_slots(slot_count as int, d),
        days.len() > 0 ==> days[0].0 == 0,
        forall|d: int|
            0 <= d < days.len() ==> days[d].0 < #[trigger] days[d].1 <= days[d].0 + slots_per_day(),
        forall|d: int| 0 <= d < days.len() - 1 ==> #[trigger] days[d].1 == days[d + 1].0,
        days.len() > 0 ==> days[days.len() - 1].1 == if slot_count < 32 {
            slot_count as int
        } else {
            32
        },
{
    let mut days: Vec<(usize, usize)> = Vec::new();
    let mut d: usize = 0;
    while d < 4 && d * 8 < slot_count
        invariant
            d <= 4,
            d <= spec_day_count(slot_count as int),
            d * 8 < slot_count + 8,
            days.len() == d,
            forall|e: int| 0 <= e < d ==> #[trigger] days[e] == spec_day_slots(slot_count as int, e),
        decreases 4 - d,
    {
        let start = d * 8;
        let end = if slot_count - start > 8 {
            start + 8
        } else {
            slot_count
        };
        days.push((start, end));
        d = d + 1;
    }
    assert(d == spec_day_count(slot_count as int));
    days
}

/// Draws the temperature forecast on the 4.2 inch panel.
///
/// `day_labels` holds the minimum and maximum label of each forecast day,
/// `temps` the forecast temperatures of the three-hour slots in order,
/// `current_temp` the current temperature, and `abs_min`, `abs_max` the
/// extremes over all of them; all temperatures in whole degrees, truncated
/// toward zero.
pub fn weather_forecast(
    frame: &mut Frame,
    current_temp: i32,
    day_labels: &Vec<String>,
    abs_min: i32,
    abs_max: i32,
    temps: &Vec<i32>,
)
    requires
        forecast_defined(
            day_labels.len() as int,
            current_temp as int,
            abs_min as int,
            abs_max as int,
            temps@,
        ),
    ensures
        final(frame)@ == old(frame)@ + forecast_marks(
            day_labels@,
            current_temp as int,
            abs_min as int,
            abs_max as int,
            temps@,
        ),
{
    let ghost start = frame@;
    let ghost labels = day_labels@;
    let h = height(Panel::Epd4in2);
    let w = width(Panel::Epd4in2);

    let mut day: usize = 0;
    while day < day_labels.len()
        invariant
            day <= day_labels.len(),
            labels == day_labels@,
            h == forecast_height(),
            forall|d: int| 0 <= d < day_labels.len() ==> #[trigger] pos_x_defined(d, 4),
            frame@ == start + label_marks(labels, day as int),
        decreases day_labels.len() - day,
    {
        assert(pos_x_defined(day as int, 4));
        let x = pos_x(day, 4);
        text_6x8(frame, day_labels[day].as_str(), Point::new(x, h - 20));
        day = day + 1;
        assert(label_marks(labels, day as int) =~= label_marks(labels, day - 1).push(
            text_mark(
                labels[day - 1]@,
                Point { x: spec_pos_x(day - 1, 4) as i32, y: (forecast_height() - 20) as i32 },
                Font::Font6x8,
            ),
        ));
    }
    let ghost after_labels = frame@;

    let basic_x_offset: i32 = 35;
    let basic_y_offset: i32 = 25;
    let r = Range::new(abs_min, abs_max, Some(basic_y_offset));

    rectangle(
        Point::new(0, h - tmp_graph_height() - basic_y_offset),
        Point::new(w, h - basic_y_offset),
    ).draw(frame);
    let ghost after_box = frame@;

    let mut prev = current_temp;
    let mut counter: usize = 0;
    while counter < temps.len()
        invariant
            counter <= temps.len(),
            h == forecast_height(),
            basic_x_offset == 35,
            r == spec_range(abs_min as int, abs_max as int, Some(25i32)),
            temps.len() * 10 + 35 <= i32::MAX,
            r.draws(current_temp as int),
            forall|i: int| 0 <= i < temps.len() ==> r.draws(#[trigger] temps[i] as int),
            prev == previous_temp(current_temp as int, temps@, counter as int),
            frame@ == after_box + segment_marks(r, current_temp as int, temps@, counter as int),
        decreases temps.len() - counter,
    {
        let temp = temps[counter];
        assert(r.draws(temp as int));
        assert(r.draws(prev as int));
        let x0 = pos_x(0, counter);
        let x1 = pos_x(0, counter + 1);
        let y0 = r.pos_y(prev);
        let y1 = r.pos_y(temp);
        line(Point::new(x0, y0), Point::new(x1, y1)).translate(Point::new(basic_x_offset, h)).draw(
            frame,
        );
        prev = temp;
        counter = counter + 1;
        assert(segment_marks(r, current_temp as int, temps@, counter as int) =~= segment_marks(
            r,
            current_temp as int,
            temps@,
            counter - 1,
        ).push(
            line_mark(
                Point {
                    x: (spec_pos_x(0, counter - 1) + 35) as i32,
                    y: drawn_y(r, previous_temp(current_temp as int, temps@, counter - 1)) as i32,
                },
                Point {
                    x: (spec_pos_x(0, counter as int) + 35) as i32,
                    y: drawn_y(r, temps@[counter - 1] as int) as i32,
                },
            ),
        ));
    }
    let ghost after_graph = frame@;

    let grid = grid_temps(abs_min, abs_max);
    let mut k: usize = 0;
    proof {
        reveal_strlit("°C");
    }
    while k < grid.len()
        invariant
            k <= grid.len(),
            h == forecast_height(),
            basic_x_offset == 35,
            grid@ == spec_grid_temps(abs_min as int, abs_max as int),
            r == spec_range(abs_min as int, abs_max as int, Some(25i32)),
            forall|i: int| 0 <= i < grid.len() ==> r.draws(#[trigger] grid@[i] as int),
            "°C"@ == seq!['°', 'C'],
            frame@ == after_graph + grid_marks(r, grid@.take(k as int)),
        decreases grid.len() - k,
    {
        let t = grid[k];
        assert(r.draws(grid@[k as int] as int));
        let y = r.pos_y(t);
        let mut label = format_signed(t as i64, 3);
        label.append("°C");
        text_6x8(frame, label.as_str(), Point::new(0, h + y));
        let x_left = pos_x(0, 0);
        let x_right = pos_x(3, 8);
        line(Point::new(x_left, y), Point::new(x_right, y)).translate(
            Point::new(basic_x_offset, h),
        ).draw(frame);
        k = k + 1;
        assert(grid@.take(k as int).drop_last() =~= grid@.take(k - 1));
        assert(grid@.take(k as int).last() == t);
    }
    assert(grid@.take(grid.len() as int) =~= grid@);
    assert(frame@ =~= old(frame)@ + forecast_marks(
        day_labels@,
        current_temp as int,
        abs_min as int,
        abs_max as int,
        temps@,
    ));
}

/// The grid lines are exactly the multiples of 10 from -30 to 50 that lie
/// within 5 degrees of the forecast extremes: `t` gets a grid line if and
/// only if `t % 10 == 0`, `-30 <= t <= 50` and `min - 5 <= t <= max + 5`.
pub proof fn lemma_grid_temps_exact(min: int, max: int, t: int)
    requires
        fits_i32(t),
    ensures
        spec_grid_temps(min, max).contains(t as i32) <==> (t % 10 == 0 && -30 <= t <= 50 && min
            - 5 <= t <= max + 5),
{
    lemma_grid_prefix(9, min, max);
    let g = spec_grid_temps(min, max);
    if t % 10 == 0 && -30 <= t <= 50 && min - 5 <= t <= max + 5 {
        let k = (t + 30) / 10;
        assert(grid_candidate(k) == t);
        assert(grid_shows(grid_candidate(k), min, max));
    }
    if g.contains(t as i32) {
        let i = choose|i: int| 0 <= i < g.len() && g[i] == t as i32;
        assert(g[i] == t);
    }
}

/// The scale is the graph height, 120 pixels, divided by the widened span
/// `(max + 5) - (min - 5)` whenever that quotient is at least 2; otherwise
/// (a quotient of 0 or 1, or a negative span) it is 1.
pub proof fn lemma_scale_quotient(min: int, max: int)
    ensures
        (max + 5) - (min - 5) > 0 && 120int / ((max + 5) - (min - 5)) >= 2 ==> spec_scale(min, max)
            == 120int / ((max + 5) - (min - 5)),
        (max + 5) - (min - 5) > 0 && 120int / ((max + 5) - (min - 5)) < 2 ==> spec_scale(min, max)
            == 1,
        (max + 5) - (min - 5) < 0 ==> spec_scale(min, max) == 1,
        (max + 5) - (min - 5) > 0 ==> spec_scale(min, max) * ((max + 5) - (min - 5)) <= 120 || spec_scale(
            min,
            max,
        ) == 1,
{
    let span = (max + 5) - (min - 5);
    if span > 0 {
        assert((120int / span) * span <= 120) by (nonlinear_arith)
            requires
                span > 0,
        ;
    }
}

/// The offset of the graph mapping is the basic offset (0 when absent) plus,
/// when the lowest temperature is below zero, the height of the `5 - min`
/// degrees between it (widened by 5) and zero. An absent basic offset acts
/// exactly as a basic offset of 0, and a basic offset `b` lifts the graph by
/// exactly `b` pixels.
pub proof fn lemma_range_offset(min: int, max: int, b: i32)
    requires
        range_defined(min, max, None),
        range_defined(min, max, Some(b)),
    ensures
        spec_range(min, max, None) == spec_range(min, max, Some(0i32)),
        spec_range(min, max, Some(b)).offset == b + spec_range(min, max, None).offset,
        spec_range(min, max, Some(b)).scale == spec_range(min, max, None).scale,
        min < 0 ==> spec_range(min, max, None).offset == (5 - min) * spec_range(min, max, None).scale,
        min >= 0 ==> spec_range(min, max, None).offset == 0,
{
}

/// A day is eight consecutive slots: the `slot`-th slot of day `day` is the
/// `8 * day + slot`-th slot counted from the first day. In particular the
/// grid lines, which end at slot 8 of day 3, end where the 32nd slot (the
/// last one of four days) ends.
pub proof fn lemma_pos_x_counts_slots(day: int, slot: int)
    requires
        pos_x_defined(day, slot),
    ensures
        pos_x_defined(0, day * 8 + slot),
        spec_pos_x(day, slot) == spec_pos_x(0, day * 8 + slot),
        spec_pos_x(3, 8) == spec_pos_x(0, 32) == 320,
{
}

/// Warmer is drawn higher: with at least one pixel per degree, a higher
/// temperature gets a smaller vertical position.
pub proof fn lemma_pos_y_decreasing(r: Range, cooler: int, warmer: int)
    requires
        r.scale >= 1,
        cooler < warmer,
    ensures
        r.spec_pos_y(warmer) < r.spec_pos_y(cooler),
{
    assert(cooler * r.scale < warmer * r.scale) by (nonlinear_arith)
        requires
            r.scale >= 1,
            cooler < warmer,
    ;
}

/// When the lowest temperature is below zero and the extremes are at most
/// 115 degrees apart, every temperature between them is drawn inside the
/// graph box (between its top edge, 145 pixels above the bottom of the
/// panel, and its bottom edge, 25 pixels above it).
pub proof fn lemma_graph_inside_box(min: int, max: int, temp: int)
    requires
        range_defined(min, max, Some(25i32)),
        min < 0,
        scale_span(min, max) <= 125,
        min <= temp <= max,
    ensures
        forecast_height() - spec_tmp_graph_height() - 25 <= drawn_y(
            spec_range(min, max, Some(25i32)),
            temp,
        ) < forecast_height() - 25,
{
    let r = spec_range(min, max, Some(25i32));
    let s = spec_scale(min, max);
    let span = scale_span(min, max);
    assert(r.scale == s);
    assert(r.offset == 25 + (5 - min) * s);
    assert(r.spec_pos_y(temp) == -25 - (temp - min + 5) * s) by (nonlinear_arith)
        requires
            r.spec_pos_y(temp) == -(temp * s) - r.offset,
            r.offset == 25 + (5 - min) * s,
    ;
    assert(0 < (temp - min + 5) * s) by (nonlinear_arith)
        requires
            s >= 1,
            temp - min + 5 > 0,
    ;
    if span > 0 && 120int / span > 1 {
        assert((temp - min + 5) * s <= 120) by (nonlinear_arith)
            requires
                s == 120int / span,
                span > 0,
                temp - min + 5 < span,
                s >= 0,
        ;
    } else {
        assert(s == 1);
        assert((temp - min + 5) * s == temp - min + 5) by (nonlinear_arith)
            requires
                s == 1,
        ;
    }
}

} // verus!
