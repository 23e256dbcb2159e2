//! The plot renderers: a pure mapping from the held snapshots and a
//! widget rectangle to a complete scene of line geometry, axis ticks
//! and a wrapped legend, recomputed whole on every redraw.

use vstd::prelude::*;

use crate::geometry::AxisTick;
use crate::geometry::COORD_LIMIT;
use crate::geometry::PlotPoint;
use crate::geometry::PlotRect;
use crate::geometry::TICK_COUNT;
use crate::geometry::axis_ticks;
use crate::geometry::fill_polygon;
use crate::geometry::polyline;
use crate::geometry::x_at;
use crate::geometry::y_at;
use crate::history::DEPTH_LIMIT;
use crate::legend::LEGEND_INSET;
use crate::legend::LEGEND_ITEM_HEIGHT;
use crate::legend::LEGEND_ITEM_LIMIT;
use crate::legend::LEGEND_ITEM_SPACING;
use crate::legend::LEGEND_RIGHT_MARGIN;
use crate::legend::LEGEND_ROW_SPACING;
use crate::legend::LEGEND_TEXT_OFFSET;
use crate::legend::layout_legend;
use crate::legend::legend_item_widths;
use crate::legend::legend_layout;
use crate::sampler::MAX_RPM;
use crate::snapshot::DashboardState;
use crate::units::FULL_PERCENT;
use crate::units::all_in_range;
use crate::units::lemma_percent_in_range;

verus! {

/// Number of colours in the fixed palette series indices cycle through.
pub const PALETTE_SIZE: usize = 12;

/// Number of palette colours the compact per-core graph cycles through.
pub const CPU_GRAPH_PALETTE_SIZE: usize = 4;

/// Margin between the widget's left edge and the plot, leaving room for
/// the axis labels (milli-pixels).
pub const LEFT_MARGIN: i64 = 40_000;

/// Margin above the plot (milli-pixels).
pub const TOP_MARGIN: i64 = 10_000;

/// Margin between the plot and the widget's right edge (milli-pixels).
pub const RIGHT_MARGIN: i64 = 10_000;

/// Margin below the plot, leaving room for the bottom labels
/// (milli-pixels).
pub const BOTTOM_MARGIN: i64 = 30_000;

/// Smallest widget width a plot can be laid out in.
pub const PLOT_MIN_WIDTH: i64 = 50_000;

/// Smallest widget height a plot can be laid out in.
pub const PLOT_MIN_HEIGHT: i64 = 40_000;

/// An opaque 8-bit-per-channel colour.
#[derive(Clone, Copy, PartialEq, Eq, Structural, Debug)]
pub struct RgbColor {
    pub r: u8,
    pub g: u8,
    pub b: u8,
}

/// The fixed ordered palette, by index `0 <= j < PALETTE_SIZE`.
pub open spec fn palette_spec(j: int) -> RgbColor {
    if j == 0 {
        RgbColor { r: 0, g: 128, b: 255 }
    } else if j == 1 {
        RgbColor { r: 0, g: 200, b: 128 }
    } else if j == 2 {
        RgbColor { r: 255, g: 128, b: 0 }
    } else if j == 3 {
        RgbColor { r: 200, g: 0, b: 128 }
    } else if j == 4 {
        RgbColor { r: 128, g: 0, b: 255 }
    } else if j == 5 {
        RgbColor { r: 255, g: 0, b: 128 }
    } else if j == 6 {
        RgbColor { r: 0, g: 255, b: 200 }
    } else if j == 7 {
        RgbColor { r: 128, g: 255, b: 0 }
    } else if j == 8 {
        RgbColor { r: 0, g: 255, b: 0 }
    } else if j == 9 {
        RgbColor { r: 255, g: 0, b: 0 }
    } else if j == 10 {
        RgbColor { r: 0, g: 128, b: 128 }
    } else {
        RgbColor { r: 128, g: 128, b: 0 }
    }
}

/// The colour assigned to series index `i`: palette entry `i` modulo the
/// palette size, so the assignment is stable whatever the series count.
pub fn palette_color(i: usize) -> (c: RgbColor)
    ensures
        c == palette_spec((i % PALETTE_SIZE) as int),
{
    let j = i % PALETTE_SIZE;
    if j == 0 {
        RgbColor { r: 0, g: 128, b: 255 }
    } else if j == 1 {
        RgbColor { r: 0, g: 200, b: 128 }
    } else if j == 2 {
        RgbColor { r: 255, g: 128, b: 0 }
    } else if j == 3 {
        RgbColor { r: 200, g: 0, b: 128 }
    } else if j == 4 {
        RgbColor { r: 128, g: 0, b: 255 }
    } else if j == 5 {
        RgbColor { r: 255, g: 0, b: 128 }
    } else if j == 6 {
        RgbColor { r: 0, g: 255, b: 200 }
    } else if j == 7 {
        RgbColor { r: 128, g: 255, b: 0 }
    } else if j == 8 {
        RgbColor { r: 0, g: 255, b: 0 }
    } else if j == 9 {
        RgbColor { r: 255, g: 0, b: 0 }
    } else if j == 10 {
        RgbColor { r: 0, g: 128, b: 128 }
    } else {
        RgbColor { r: 128, g: 128, b: 0 }
    }
}

/// The closed set of plots the dashboard can draw; adding a kind is a
/// compile-time exercise, every match over it being exhaustive.
#[derive(Clone, Copy, PartialEq, Eq, Structural, Debug)]
pub enum PlotType {
    AverageCPU,
    PerCoreCPU,
    RAM,
    GPU,
    GPUFan,
    GPUTemp,
}

impl PlotType {
    /// The series of the held state this plot kind draws, in order.
    pub open spec fn series_of(self, data: DashboardState) -> Seq<Seq<u64>> {
        match self {
            PlotType::AverageCPU => seq![data.cpu.average_view()],
            PlotType::PerCoreCPU => data.cpu.per_core_view(),
            PlotType::RAM => seq![data.cpu.memory_view()],
            PlotType::GPU => seq![data.gpu.vram_view()],
            PlotType::GPUFan => data.gpu.fan_view(),
            PlotType::GPUTemp => seq![data.gpu.temperature_view()],
        }
    }

    /// The common depth of the series this plot kind draws.
    pub open spec fn depth_of(self, data: DashboardState) -> nat {
        match self {
            PlotType::AverageCPU => data.cpu.depth(),
            PlotType::PerCoreCPU => data.cpu.depth(),
            PlotType::RAM => data.cpu.depth(),
            PlotType::GPU => data.gpu.depth(),
            PlotType::GPUFan => data.gpu.depth(),
            PlotType::GPUTemp => data.gpu.depth(),
        }
    }

    /// The palette index of series `i` of this plot kind.
    pub open spec fn color_index_of(self, i: int) -> int {
        match self {
            PlotType::AverageCPU => 1,
            PlotType::PerCoreCPU => i % (PALETTE_SIZE as int),
            PlotType::RAM => 2,
            PlotType::GPU => 3,
            PlotType::GPUFan => i % (PALETTE_SIZE as int),
            PlotType::GPUTemp => 4,
        }
    }

    /// Display units per gridline on this plot kind's axis: ten percent
    /// (or degrees) per step, or a tenth of the maximum fan speed.
    pub open spec fn unit_step_of(self) -> u64 {
        match self {
            PlotType::GPUFan => MAX_RPM / 10,
            _ => 10,
        }
    }

    /// Whether this plot kind carries a legend, one item per series.
    pub open spec fn has_legend(self) -> bool {
        self is PerCoreCPU || self is GPUFan
    }
}

/// One rendered series: its colour, the polyline through its samples,
/// and the polygon filled beneath the line.
pub struct SeriesLine {
    pub color: RgbColor,
    pub points: Vec<PlotPoint>,
    pub fill: Vec<PlotPoint>,
}

/// One placed legend item: its top-left corner and its swatch colour.
pub struct LegendEntry {
    pub x: i64,
    pub y: i64,
    pub color: RgbColor,
}

/// Everything one redraw paints: the plot rectangle (background and
/// axes), the gridlines, the placed legend, and one line per series.
pub struct Scene {
    pub plot: PlotRect,
    pub ticks: Vec<AxisTick>,
    pub legend: Vec<LegendEntry>,
    pub series: Vec<SeriesLine>,
}

/// The plot rectangle inside a widget of the given size: fixed margins
/// on every side.
pub open spec fn plot_rect_spec(width: i64, height: i64) -> PlotRect {
    PlotRect {
        x0: LEFT_MARGIN,
        y0: TOP_MARGIN,
        x1: (width - RIGHT_MARGIN) as i64,
        y1: (height - BOTTOM_MARGIN) as i64,
    }
}

/// Lay the plot rectangle out inside a widget of the given size.
fn plot_rect_for(width: i64, height: i64) -> (rect: PlotRect)
    requires
        PLOT_MIN_WIDTH <= width <= COORD_LIMIT,
        PLOT_MIN_HEIGHT <= height <= COORD_LIMIT,
    ensures
        rect == plot_rect_spec(width, height),
        rect.wf(),
{
    PlotRect { x0: LEFT_MARGIN, y0: TOP_MARGIN, x1: width - RIGHT_MARGIN, y1: height - BOTTOM_MARGIN }
}

/// Render one series into its line and its fill polygon.
fn series_line(values: &Vec<u64>, plot: &PlotRect, color: RgbColor) -> (line: SeriesLine)
    requires
        plot.wf(),
        2 <= values@.len() <= DEPTH_LIMIT,
        all_in_range(values@),
    ensures
        line.color == color,
        line.points@.len() == values@.len(),
        forall|k: int|
            0 <= k < values@.len() ==> (#[trigger] line.points@[k]).x == x_at(
                *plot,
                values@.len() as int,
                k,
            ) && line.points@[k].y == y_at(*plot, FULL_PERCENT, values@[k]),
        line.fill@.len() == values@.len() + 2,
        forall|k: int| 0 <= k < values@.len() ==> #[trigger] line.fill@[k] == line.points@[k],
        line.fill@[values@.len() as int] == (PlotPoint { x: plot.x1, y: plot.y1 }),
        line.fill@[values@.len() as int + 1] == (PlotPoint { x: plot.x0, y: plot.y1 }),
{
    let points = polyline(values, plot, FULL_PERCENT);
    let fill = fill_polygon(&points, plot);
    SeriesLine { color, points, fill }
}

/// Place one legend item per label, wrapping at the plot's right
/// boundary, colouring item `i` with palette entry `i` modulo the
/// palette size.
fn build_legend(label_widths: &Vec<i64>, plot: &PlotRect) -> (entries: Vec<LegendEntry>)
    requires
        plot.wf(),
        plot.x0 + LEGEND_INSET <= COORD_LIMIT,
        plot.y0 + LEGEND_INSET <= COORD_LIMIT,
        plot.x1 >= LEGEND_RIGHT_MARGIN,
        label_widths@.len() <= LEGEND_ITEM_LIMIT,
        forall|j: int| 0 <= j < label_widths@.len() ==> 0 <= #[trigger] label_widths@[j] <= 0x4000_0000,
    ensures
        entries@.len() == label_widths@.len(),
        forall|j: int|
            0 <= j < entries@.len() ==> (#[trigger] entries@[j]).color == palette_spec(
                j % (PALETTE_SIZE as int),
            ),
        forall|j: int|
            0 <= j < entries@.len() ==> ({
                let lay = legend_layout(
                    legend_item_widths(label_widths@),
                    plot.x0 + LEGEND_INSET,
                    plot.y0 + LEGEND_INSET,
                    plot.x1 - LEGEND_RIGHT_MARGIN,
                    LEGEND_ITEM_HEIGHT + LEGEND_ROW_SPACING,
                );
                (#[trigger] entries@[j]).x == lay[j].0 && entries@[j].y == lay[j].1
            }),
{
    let n = label_widths.len();
    let mut widths: Vec<i64> = Vec::new();
    let mut j: usize = 0;
    while j < n
        invariant
            n == label_widths@.len(),
            forall|t: int|
                0 <= t < label_widths@.len() ==> 0 <= #[trigger] label_widths@[t] <= 0x4000_0000,
            j <= n,
            widths@.len() == j,
            forall|t: int|
                0 <= t < j ==> #[trigger] widths@[t] == LEGEND_TEXT_OFFSET + label_widths@[t]
                    + LEGEND_ITEM_SPACING,
        decreases n - j,
    {
        widths.push(LEGEND_TEXT_OFFSET + label_widths[j] + LEGEND_ITEM_SPACING);
        j = j + 1;
    }
    proof {
        assert(widths@.map_values(|w: i64| w as int) =~= legend_item_widths(label_widths@));
    }
    let slots = layout_legend(
        &widths,
        plot.x0 + LEGEND_INSET,
        plot.y0 + LEGEND_INSET,
        plot.x1 - LEGEND_RIGHT_MARGIN,
        LEGEND_ITEM_HEIGHT + LEGEND_ROW_SPACING,
    );
    let mut entries: Vec<LegendEntry> = Vec::new();
    let mut i: usize = 0;
    while i < n
        invariant
            n == label_widths@.len(),
            slots@.len() == n,
            forall|t: int|
                0 <= t < n ==> (#[trigger] slots@[t]).x == legend_layout(
                    legend_item_widths(label_widths@),
                    plot.x0 + LEGEND_INSET,
                    plot.y0 + LEGEND_INSET,
                    plot.x1 - LEGEND_RIGHT_MARGIN,
                    LEGEND_ITEM_HEIGHT + LEGEND_ROW_SPACING,
                )[t].0 && slots@[t].y == legend_layout(
                    legend_item_widths(label_widths@),
                    plot.x0 + LEGEND_INSET,
                    plot.y0 + LEGEND_INSET,
                    plot.x1 - LEGEND_RIGHT_MARGIN,
                    LEGEND_ITEM_HEIGHT + LEGEND_ROW_SPACING,
                )[t].1,
            i <= n,
            entries@.len() == i,
            forall|t: int|
                0 <= t < i ==> (#[trigger] entries@[t]).color == palette_spec(
                    t % (PALETTE_SIZE as int),
                ) && entries@[t].x == slots@[t].x && entries@[t].y == slots@[t].y,
        decreases n - i,
    {
        let slot = slots[i];
        let color = palette_color(i);
        proof {
            assert((i % PALETTE_SIZE) as int == (i as int) % (PALETTE_SIZE as int));
        }
        entries.push(LegendEntry { x: slot.x, y: slot.y, color });
        i = i + 1;
    }
    entries
}

/// The configurable usage plot: one widget instance per plot kind.
pub struct UsageGraph {
    plot_type: PlotType,
}

impl UsageGraph {
    /// The plot kind this widget draws.
    pub closed spec fn kind(&self) -> PlotType {
        self.plot_type
    }

    /// A usage plot of the given kind.
    pub fn new(plot_type: PlotType) -> (r: UsageGraph)
        ensures
            r.kind() == plot_type,
    {
        UsageGraph { plot_type }
    }

    /// Recompute the whole scene for the held state inside a widget of
    /// the given size. `label_widths` carries the measured width of each
    /// legend label for the plot kinds that show a legend.
    pub fn paint(&self, data: &DashboardState, width: i64, height: i64, label_widths: &Vec<i64>)
        -> (scene: Scene)
        requires
            data.wf(),
            PLOT_MIN_WIDTH <= width <= COORD_LIMIT,
            PLOT_MIN_HEIGHT <= height <= COORD_LIMIT,
            self.kind().has_legend() ==> label_widths@.len() == self.kind().series_of(
                *data,
            ).len(),
            label_widths@.len() <= LEGEND_ITEM_LIMIT,
            forall|j: int|
                0 <= j < label_widths@.len() ==> 0 <= #[trigger] label_widths@[j] <= 0x4000_0000,
        ensures
            scene.plot == plot_rect_spec(width, height),
            scene.ticks@.len() == TICK_COUNT,
            forall|i: int|
                0 <= i < TICK_COUNT ==> (#[trigger] scene.ticks@[i]).y == scene.plot.y1 - i
                    * scene.plot.height() / 10,
            forall|i: int|
                0 <= i < TICK_COUNT ==> (#[trigger] scene.ticks@[i]).value == i * (
                self.kind().unit_step_of() as int),
            scene.series@.len() == self.kind().series_of(*data).len(),
            forall|i: int|
                0 <= i < scene.series@.len() ==> (#[trigger] scene.series@[i]).color
                    == palette_spec(self.kind().color_index_of(i)),
            forall|i: int|
                0 <= i < scene.series@.len() ==> (#[trigger] scene.series@[i]).points@.len()
                    == self.kind().depth_of(*data),
            forall|i: int, k: int|
                0 <= i < scene.series@.len() && 0 <= k < self.kind().depth_of(*data) ==> (
                #[trigger] scene.series@[i].points@[k]).x == x_at(
                    scene.plot,
                    self.kind().depth_of(*data) as int,
                    k,
                ) && scene.series@[i].points@[k].y == y_at(
                    scene.plot,
                    FULL_PERCENT,
                    self.kind().series_of(*data)[i][k],
                ),
            forall|i: int|
                0 <= i < scene.series@.len() ==> (#[trigger] scene.series@[i]).fill@.len()
                    == self.kind().depth_of(*data) + 2,
            forall|i: int, k: int|
                0 <= i < scene.series@.len() && 0 <= k < self.kind().depth_of(*data)
                    ==> #[trigger] scene.series@[i].fill@[k] == scene.series@[i].points@[k],
            forall|i: int|
                0 <= i < scene.series@.len() ==> (#[trigger] scene.series@[i]).fill@[self.kind().depth_of(*data) as int]
                    == (PlotPoint { x: scene.plot.x1, y: scene.plot.y1 })
                    && scene.series@[i].fill@[self.kind().depth_of(*data) as int + 1] == (PlotPoint {
                    x: scene.plot.x0,
                    y: scene.plot.y1,
                }),
            self.kind().has_legend() ==> scene.legend@.len() == self.kind().series_of(
                *data,
            ).len(),
            !self.kind().has_legend() ==> scene.legend@.len() == 0,
            forall|j: int|
                0 <= j < scene.legend@.len() ==> (#[trigger] scene.legend@[j]).color
                    == palette_spec(j % (PALETTE_SIZE as int)),
            forall|j: int|
                0 <= j < scene.legend@.len() ==> ({
                    let lay = legend_layout(
                        legend_item_widths(label_widths@),
                        scene.plot.x0 + LEGEND_INSET,
                        scene.plot.y0 + LEGEND_INSET,
                        scene.plot.x1 - LEGEND_RIGHT_MARGIN,
                        LEGEND_ITEM_HEIGHT + LEGEND_ROW_SPACING,
                    );
                    (#[trigger] scene.legend@[j]).x == lay[j].0 && scene.legend@[j].y == lay[j].1
                }),
    {
        let plot = plot_rect_for(width, height);
        let step: u64 = match self.plot_type {
            PlotType::GPUFan => MAX_RPM / 10,
            _ => 10,
        };
        let ticks = axis_ticks(&plot, step);
        let mut series: Vec<SeriesLine> = Vec::new();
        let mut legend: Vec<LegendEntry> = Vec::new();
        match self.plot_type {
            PlotType::AverageCPU => {
                let values = data.cpu.average_values();
                proof {
                    lemma_percent_in_range(values@);
                }
                series.push(series_line(&values, &plot, palette_color(1)));
            },
            PlotType::PerCoreCPU => {
                legend = build_legend(label_widths, &plot);
                let cores = data.cpu.cores();
                let mut i: usize = 0;
                while i < cores
                    invariant
                        data.wf(),
                        plot.wf(),
                        cores == data.cpu.core_count(),
                        i <= cores,
                        series@.len() == i,
                        forall|t: int|
                            0 <= t < i ==> (#[trigger] series@[t]).color == palette_spec(
                                t % (PALETTE_SIZE as int),
                            ),
                        forall|t: int|
                            0 <= t < i ==> (#[trigger] series@[t]).points@.len()
                                == data.cpu.depth(),
                        forall|t: int, k: int|
                            0 <= t < i && 0 <= k < data.cpu.depth() ==> (#[trigger] series@[t].points@[k]).x
                                == x_at(plot, data.cpu.depth() as int, k)
                                && series@[t].points@[k].y == y_at(
                                plot,
                                FULL_PERCENT,
                                data.cpu.per_core_view()[t][k],
                            ),
                        forall|t: int|
                            0 <= t < i ==> (#[trigger] series@[t]).fill@.len() == data.cpu.depth()
                                + 2,
                        forall|t: int, k: int|
                            0 <= t < i && 0 <= k < data.cpu.depth()
                                ==> #[trigger] series@[t].fill@[k] == series@[t].points@[k],
                        forall|t: int|
                            0 <= t < i ==> (#[trigger] series@[t]).fill@[data.cpu.depth() as int]
                                == (PlotPoint { x: plot.x1, y: plot.y1 })
                                && series@[t].fill@[data.cpu.depth() as int + 1] == (PlotPoint {
                                x: plot.x0,
                                y: plot.y1,
                            }),
                    decreases cores - i,
                {
                    let values = data.cpu.core_values(i);
                    proof {
                        lemma_percent_in_range(values@);
                        assert((i % PALETTE_SIZE) as int == (i as int) % (PALETTE_SIZE as int));
                    }
                    series.push(series_line(&values, &plot, palette_color(i)));
                    i = i + 1;
                }
            },
            PlotType::RAM => {
                let values = data.cpu.memory_values();
                proof {
                    lemma_percent_in_range(values@);
                }
                series.push(series_line(&values, &plot, palette_color(2)));
            },
            PlotType::GPU => {
                let values = data.gpu.vram_values();
                proof {
                    lemma_percent_in_range(values@);
                }
                series.push(series_line(&values, &plot, palette_color(3)));
            },
            PlotType::GPUFan => {
                legend = build_legend(label_widths, &plot);
                let fans = data.gpu.fans();
                let mut i: usize = 0;
                while i < fans
                    invariant
                        data.wf(),
                        plot.wf(),
                        fans == data.gpu.fan_count(),
                        i <= fans,
                        series@.len() == i,
                        forall|t: int|
                            0 <= t < i ==> (#[trigger] series@[t]).color == palette_spec(
                                t % (PALETTE_SIZE as int),
                            ),
                        forall|t: int|
                            0 <= t < i ==> (#[trigger] series@[t]).points@.len()
                                == data.gpu.depth(),
                        forall|t: int, k: int|
                            0 <= t < i && 0 <= k < data.gpu.depth() ==> (#[trigger] series@[t].points@[k]).x
                                == x_at(plot, data.gpu.depth() as int, k)
                                && series@[t].points@[k].y == y_at(
                                plot,
                                FULL_PERCENT,
                                data.gpu.fan_view()[t][k],
                            ),
                        forall|t: int|
                            0 <= t < i ==> (#[trigger] series@[t]).fill@.len() == data.gpu.depth()
                                + 2,
                        forall|t: int, k: int|
                            0 <= t < i && 0 <= k < data.gpu.depth()
                                ==> #[trigger] series@[t].fill@[k] == series@[t].points@[k],
                        forall|t: int|
                            0 <= t < i ==> (#[trigger] series@[t]).fill@[data.gpu.depth() as int]
                                == (PlotPoint { x: plot.x1, y: plot.y1 })
                                && series@[t].fill@[data.gpu.depth() as int + 1] == (PlotPoint {
                                x: plot.x0,
                                y: plot.y1,
                            }),
                    decreases fans - i,
                {
                    let values = data.gpu.fan_values(i);
                    proof {
                        lemma_percent_in_range(values@);
                        assert((i % PALETTE_SIZE) as int == (i as int) % (PALETTE_SIZE as int));
                    }
                    series.push(series_line(&values, &plot, palette_color(i)));
                    i = i + 1;
                }
            },
            PlotType::GPUTemp => {
                let values = data.gpu.temperature_values();
                series.push(series_line(&values, &plot, palette_color(4)));
            },
        }
        Scene { plot, ticks, legend, series }
    }
}

/// The compact per-core CPU graph: every core's line in one plot, no
/// legend, cycling through a four-colour palette.
pub struct CpuGraph {}

impl CpuGraph {
    /// A per-core CPU graph.
    pub fn new() -> (r: CpuGraph) {
        CpuGraph {}
    }

    /// Recompute the whole scene for the held state inside a widget of
    /// the given size: one line per core, percentage gridlines, no
    /// legend.
    pub fn paint(&self, data: &DashboardState, width: i64, height: i64) -> (scene: Scene)
        requires
            data.wf(),
            PLOT_MIN_WIDTH <= width <= COORD_LIMIT,
            PLOT_MIN_HEIGHT <= height <= COORD_LIMIT,
        ensures
            scene.plot == plot_rect_spec(width, height),
            scene.ticks@.len() == TICK_COUNT,
            forall|i: int|
                0 <= i < TICK_COUNT ==> (#[trigger] scene.ticks@[i]).y == scene.plot.y1 - i
                    * scene.plot.height() / 10,
            forall|i: int| 0 <= i < TICK_COUNT ==> (#[trigger] scene.ticks@[i]).value == i * 10,
            scene.legend@.len() == 0,
            scene.series@.len() == data.cpu.core_count(),
            forall|i: int|
                0 <= i < scene.series@.len() ==> (#[trigger] scene.series@[i]).color
                    == palette_spec(i % (CPU_GRAPH_PALETTE_SIZE as int)),
            forall|i: int|
                0 <= i < scene.series@.len() ==> (#[trigger] scene.series@[i]).points@.len()
                    == data.cpu.depth(),
            forall|i: int, k: int|
                0 <= i < scene.series@.len() && 0 <= k < data.cpu.depth() ==> (
                #[trigger] scene.series@[i].points@[k]).x == x_at(
                    scene.plot,
                    data.cpu.depth() as int,
                    k,
                ) && scene.series@[i].points@[k].y == y_at(
                    scene.plot,
                    FULL_PERCENT,
                    data.cpu.per_core_view()[i][k],
                ),
            forall|i: int|
                0 <= i < scene.series@.len() ==> (#[trigger] scene.series@[i]).fill@.len()
                    == data.cpu.depth() + 2,
    {
        let plot = plot_rect_for(width, height);
        let ticks = axis_ticks(&plot, 10);
        let mut series: Vec<SeriesLine> = Vec::new();
        let cores = data.cpu.cores();
        let mut i: usize = 0;
        while i < cores
            invariant
                data.wf(),
                plot.wf(),
                cores == data.cpu.core_count(),
                i <= cores,
                series@.len() == i,
                forall|t: int|
                    0 <= t < i ==> (#[trigger] series@[t]).color == palette_spec(
                        t % (CPU_GRAPH_PALETTE_SIZE as int),
                    ),
                forall|t: int|
                    0 <= t < i ==> (#[trigger] series@[t]).points@.len() == data.cpu.depth(),
                forall|t: int, k: int|
                    0 <= t < i && 0 <= k < data.cpu.depth() ==> (#[trigger] series@[t].points@[k]).x
                        == x_at(plot, data.cpu.depth() as int, k) && series@[t].points@[k].y
                        == y_at(plot, FULL_PERCENT, data.cpu.per_core_view()[t][k]),
                forall|t: int|
                    0 <= t < i ==> (#[trigger] series@[t]).fill@.len() == data.cpu.depth() + 2,
            decreases cores - i,
        {
            let values = data.cpu.core_values(i);
            proof {
                lemma_percent_in_range(values@);
                assert((i % CPU_GRAPH_PALETTE_SIZE) as int == (i as int) % (
                CPU_GRAPH_PALETTE_SIZE as int));
            }
            series.push(series_line(&values, &plot, palette_color_compact(i)));
            i = i + 1;
        }
        Scene { plot, ticks, legend: Vec::new(), series }
    }
}

/// The colour the compact graph assigns to core `i`: one of the first
/// four palette entries, by `i` modulo four.
pub fn palette_color_compact(i: usize) -> (c: RgbColor)
    ensures
        c == palette_spec((i % CPU_GRAPH_PALETTE_SIZE) as int),
{
    let j = i % CPU_GRAPH_PALETTE_SIZE;
    if j == 0 {
        RgbColor { r: 0, g: 128, b: 255 }
    } else if j == 1 {
        RgbColor { r: 0, g: 200, b: 128 }
    } else if j == 2 {
        RgbColor { r: 255, g: 128, b: 0 }
    } else {
        RgbColor { r: 200, g: 0, b: 128 }
    }
}

} // verus!
