//! Plot geometry: the deterministic mapping from a sample window into
//! screen-space line geometry and axis ticks.
//!
//! All coordinates are integers in milli-pixels, so the mapping is exact
//! and the off-by-one behaviour at the plot edges can be pinned down:
//! the oldest sample sits on the left edge and the newest on the right.

use vstd::prelude::*;

use vstd::arithmetic::div_mod::lemma_div_multiples_vanish;
use vstd::arithmetic::div_mod::lemma_div_nonincreasing;
use vstd::arithmetic::div_mod::lemma_div_of0;
use vstd::arithmetic::div_mod::lemma_div_pos_is_pos;

use crate::history::DEPTH_LIMIT;
use crate::units::all_in_range;

verus! {

/// Largest coordinate (in milli-pixels) a plot rectangle may reach;
/// keeps every geometry product inside 63 bits.
pub const COORD_LIMIT: i64 = 0x8000_0000;

/// Number of horizontal gridlines drawn on every plot: one per ten
/// percent of full scale, both edges included.
pub const TICK_COUNT: usize = 11;

/// A plot rectangle in milli-pixel screen coordinates; `x0, y0` is the
/// top-left corner and `x1, y1` the bottom-right one.
#[derive(Clone, Copy, PartialEq, Eq, Structural, Debug)]
pub struct PlotRect {
    pub x0: i64,
    pub y0: i64,
    pub x1: i64,
    pub y1: i64,
}

impl PlotRect {
    /// Well-formed: non-negative, properly ordered, within the
    /// coordinate limit.
    pub open spec fn wf(&self) -> bool {
        &&& 0 <= self.x0 <= self.x1 <= COORD_LIMIT
        &&& 0 <= self.y0 <= self.y1 <= COORD_LIMIT
    }

    /// The rectangle's width in milli-pixels.
    pub open spec fn width(&self) -> int {
        self.x1 - self.x0
    }

    /// The rectangle's height in milli-pixels.
    pub open spec fn height(&self) -> int {
        self.y1 - self.y0
    }
}

/// One vertex of a polyline, in milli-pixel screen coordinates.
#[derive(Clone, Copy, PartialEq, Eq, Structural, Debug)]
pub struct PlotPoint {
    pub x: i64,
    pub y: i64,
}

/// The horizontal position of sample `k` of a window of `n`: the left
/// edge plus `k` equal steps of `width / (n - 1)`, so sample `n - 1`
/// lands exactly on the right edge.
pub open spec fn x_at(rect: PlotRect, n: int, k: int) -> int
    recommends
        n >= 2,
{
    rect.x0 + k * rect.width() / (n - 1)
}

/// The vertical position of a sample: the bottom edge minus the sample's
/// share of the height, where `divisor` is the full-scale sample value.
pub open spec fn y_at(rect: PlotRect, divisor: u64, v: u64) -> int
    recommends
        divisor >= 1,
{
    rect.y1 - (v as int) * rect.height() / (divisor as int)
}

/// Map a sample window into the vertices of its plot polyline. The first
/// vertex sits on the rectangle's left edge and the last exactly on its
/// right edge, whatever the window depth.
pub fn polyline(values: &Vec<u64>, rect: &PlotRect, divisor: u64) -> (pts: Vec<PlotPoint>)
    requires
        rect.wf(),
        divisor >= 1,
        2 <= values@.len() <= DEPTH_LIMIT,
        all_in_range(values@),
    ensures
        pts@.len() == values@.len(),
        forall|k: int|
            0 <= k < pts@.len() ==> (#[trigger] pts@[k]).x == x_at(
                *rect,
                values@.len() as int,
                k,
            ),
        forall|k: int|
            0 <= k < pts@.len() ==> (#[trigger] pts@[k]).y == y_at(*rect, divisor, values@[k]),
        pts@[0].x == rect.x0,
        pts@[pts@.len() - 1].x == rect.x1,
{
    let n = values.len();
    let w: i64 = rect.x1 - rect.x0;
    let h: i64 = rect.y1 - rect.y0;
    let mut pts: Vec<PlotPoint> = Vec::new();
    let mut k: usize = 0;
    while k < n
        invariant
            rect.wf(),
            divisor >= 1,
            2 <= n <= DEPTH_LIMIT,
            n == values@.len(),
            all_in_range(values@),
            w == rect.width(),
            h == rect.height(),
            k <= n,
            pts@.len() == k,
            forall|j: int|
                0 <= j < k ==> (#[trigger] pts@[j]).x == x_at(*rect, n as int, j),
            forall|j: int|
                0 <= j < k ==> (#[trigger] pts@[j]).y == y_at(*rect, divisor, values@[j]),
        decreases n - k,
    {
        proof {
            assert((k as int) * (w as int) <= 0x8000_0000i64 * 0x8000_0000i64)
                by (nonlinear_arith)
                requires
                    0 <= k as int <= 0x8000_0000i64,
                    0 <= w as int <= 0x8000_0000i64,
            ;
            lemma_div_pos_is_pos((k as int) * (w as int), n - 1);
            lemma_div_nonincreasing((k as int) * (w as int), n - 1);
        }
        let xoff: u64 = (k as u64) * (w as u64) / ((n - 1) as u64);
        let x: i64 = rect.x0 + (xoff as i64);
        let v = values[k];
        proof {
            assert((v as int) * (h as int) <= 0x8000_0000i64 * 0x8000_0000i64)
                by (nonlinear_arith)
                requires
                    0 <= v as int <= 0x8000_0000i64,
                    0 <= h as int <= 0x8000_0000i64,
            ;
            lemma_div_pos_is_pos((v as int) * (h as int), divisor as int);
            lemma_div_nonincreasing((v as int) * (h as int), divisor as int);
        }
        let yoff: u64 = v * (h as u64) / divisor;
        let y: i64 = rect.y1 - (yoff as i64);
        pts.push(PlotPoint { x, y });
        k = k + 1;
    }
    proof {
        lemma_div_of0(n - 1);
        assert(0 as int * (w as int) == 0);
        assert(pts@[0].x == rect.x0);
        lemma_div_multiples_vanish(w as int, n - 1);
        assert((n - 1) * (w as int) == (w as int) * (n - 1)) by (nonlinear_arith);
        assert(x_at(*rect, n as int, n - 1) == rect.x0 + w);
    }
    pts
}

/// Close a polyline into the polygon that is filled under the line: the
/// vertices of the line, then the bottom-right and bottom-left corners
/// of the plot rectangle.
pub fn fill_polygon(points: &Vec<PlotPoint>, rect: &PlotRect) -> (poly: Vec<PlotPoint>)
    ensures
        poly@.len() == points@.len() + 2,
        forall|k: int| 0 <= k < points@.len() ==> #[trigger] poly@[k] == points@[k],
        poly@[points@.len() as int] == (PlotPoint { x: rect.x1, y: rect.y1 }),
        poly@[points@.len() as int + 1] == (PlotPoint { x: rect.x0, y: rect.y1 }),
{
    let mut poly: Vec<PlotPoint> = Vec::new();
    let mut k: usize = 0;
    while k < points.len()
        invariant
            k <= points@.len(),
            poly@.len() == k,
            forall|j: int| 0 <= j < k ==> #[trigger] poly@[j] == points@[j],
        decreases points@.len() - k,
    {
        poly.push(points[k]);
        k = k + 1;
    }
    poly.push(PlotPoint { x: rect.x1, y: rect.y1 });
    poly.push(PlotPoint { x: rect.x0, y: rect.y1 });
    poly
}

/// One horizontal gridline: its vertical position and the value its
/// label shows, in the axis' display unit.
#[derive(Clone, Copy, PartialEq, Eq, Structural, Debug)]
pub struct AxisTick {
    pub y: i64,
    pub value: u64,
}

/// The eleven evenly spaced gridlines of a plot, bottom first: gridline
/// `i` sits `i` tenths of the height above the bottom edge and is
/// labelled `i` display steps, so the top gridline lies exactly on the
/// top edge.
pub fn axis_ticks(rect: &PlotRect, unit_step: u64) -> (ticks: Vec<AxisTick>)
    requires
        rect.wf(),
        unit_step <= 0x1999_9999_9999_9999,
    ensures
        ticks@.len() == TICK_COUNT,
        forall|i: int|
            0 <= i < TICK_COUNT ==> (#[trigger] ticks@[i]).y == rect.y1 - i * rect.height() / 10,
        forall|i: int| 0 <= i < TICK_COUNT ==> (#[trigger] ticks@[i]).value == i * unit_step,
        ticks@[0].y == rect.y1,
        ticks@[10].y == rect.y0,
{
    let h: i64 = rect.y1 - rect.y0;
    let mut ticks: Vec<AxisTick> = Vec::new();
    let mut i: usize = 0;
    while i < TICK_COUNT
        invariant
            rect.wf(),
            unit_step <= 0x1999_9999_9999_9999,
            h == rect.height(),
            i <= TICK_COUNT,
            ticks@.len() == i,
            forall|j: int|
                0 <= j < i ==> (#[trigger] ticks@[j]).y == rect.y1 - j * rect.height() / 10,
            forall|j: int| 0 <= j < i ==> (#[trigger] ticks@[j]).value == j * unit_step,
        decreases TICK_COUNT - i,
    {
        proof {
            assert((i as int) * (h as int) <= 10 * 0x8000_0000i64) by (nonlinear_arith)
                requires
                    0 <= i as int <= 10,
                    0 <= h as int <= 0x8000_0000i64,
            ;
            assert((i as int) * (unit_step as int) <= 10 * 0x1999_9999_9999_9999u64)
                by (nonlinear_arith)
                requires
                    0 <= i as int <= 10,
                    0 <= unit_step as int <= 0x1999_9999_9999_9999u64,
            ;
            lemma_div_pos_is_pos((i as int) * (h as int), 10);
            lemma_div_nonincreasing((i as int) * (h as int), 10);
        }
        let yoff: i64 = ((i as i64) * h) / 10;
        let y: i64 = rect.y1 - yoff;
        let value: u64 = (i as u64) * unit_step;
        ticks.push(AxisTick { y, value });
        i = i + 1;
    }
    proof {
        lemma_div_of0(10);
        lemma_div_multiples_vanish(h as int, 10);
        assert(10 * (h as int) == (h as int) * 10) by (nonlinear_arith);
        assert(ticks@[10].y == rect.y1 - h);
    }
    ticks
}

} // verus!
