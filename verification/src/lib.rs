//! Core of a live hardware-telemetry dashboard: fixed-depth rolling
//! histories of CPU, memory and GPU readings, per-tick sampler state
//! machines, and the integer plot geometry (polylines, axis ticks and a
//! wrapping legend) that a UI host draws from.

mod geometry;
mod graph;
mod history;
mod imvec;
mod legend;
mod sampler;
mod snapshot;
mod units;

pub use geometry::AxisTick;
pub use geometry::COORD_LIMIT;
pub use geometry::PlotPoint;
pub use geometry::PlotRect;
pub use geometry::TICK_COUNT;
pub use geometry::axis_ticks;
pub use geometry::fill_polygon;
pub use geometry::polyline;
pub use geometry::x_at;
pub use geometry::y_at;
pub use graph::BOTTOM_MARGIN;
pub use graph::CPU_GRAPH_PALETTE_SIZE;
pub use graph::CpuGraph;
pub use graph::LEFT_MARGIN;
pub use graph::LegendEntry;
pub use graph::PALETTE_SIZE;
pub use graph::PLOT_MIN_HEIGHT;
pub use graph::PLOT_MIN_WIDTH;
pub use graph::PlotType;
pub use graph::RIGHT_MARGIN;
pub use graph::RgbColor;
pub use graph::Scene;
pub use graph::SeriesLine;
pub use graph::TOP_MARGIN;
pub use graph::UsageGraph;
pub use graph::palette_color;
pub use graph::palette_color_compact;
pub use graph::palette_spec;
pub use graph::plot_rect_spec;
pub use history::DEPTH_LIMIT;
pub use history::HistorySeries;
pub use history::lemma_ring_invariant;
pub use history::pushed;
pub use history::pushed_all;
pub use imvec::im_seq;
pub use imvec::im_values;
pub use legend::LEGEND_INSET;
pub use legend::LEGEND_ITEM_HEIGHT;
pub use legend::LEGEND_ITEM_LIMIT;
pub use legend::LEGEND_ITEM_SPACING;
pub use legend::LEGEND_RIGHT_MARGIN;
pub use legend::LEGEND_ROW_SPACING;
pub use legend::LEGEND_SAMPLE_LEN;
pub use legend::LEGEND_TEXT_BASELINE;
pub use legend::LEGEND_TEXT_OFFSET;
pub use legend::LegendSlot;
pub use legend::layout_legend;
pub use legend::legend_item_widths;
pub use legend::legend_layout;
pub use legend::lemma_legend_layout_len;
pub use legend::lemma_legend_wrap_exact;
pub use sampler::CpuSampler;
pub use sampler::GpuReadings;
pub use sampler::GpuSampler;
pub use sampler::MAX_RPM;
pub use sampler::MemoryReading;
pub use sampler::average_sample;
pub use sampler::clamped_sum;
pub use sampler::lemma_average_bound;
pub use sampler::lemma_clamped_sum_bounds;
pub use snapshot::CpuSnapshot;
pub use snapshot::DashboardState;
pub use snapshot::GpuSnapshot;
pub use units::FULL_PERCENT;
pub use units::MILLI;
pub use units::RawValue;
pub use units::SAMPLE_LIMIT;
pub use units::all_in_range;
pub use units::all_percent;
pub use units::clamp_percent;
pub use units::percent_of;
