use system_monitor::CpuGraph;
use system_monitor::CpuSampler;
use system_monitor::DashboardState;
use system_monitor::GpuReadings;
use system_monitor::GpuSampler;
use system_monitor::MemoryReading;
use system_monitor::PlotType;
use system_monitor::RawValue;
use system_monitor::UsageGraph;
use system_monitor::palette_color;

fn dashboard() -> DashboardState {
    let mut cpu = CpuSampler::new(3, 4);
    let readings = vec![
        RawValue::Finite(10_000),
        RawValue::Finite(20_000),
        RawValue::Finite(60_000),
    ];
    let cpu_snap = cpu.tick(&readings, 256, 1024);
    let mut gpu = GpuSampler::new(2, 4, 3000, "NVIDIA".to_string(), "Test GPU".to_string());
    let g = GpuReadings {
        temperature: Some(65_000),
        fan_rpm: vec![Some(750), Some(3000)],
        memory: Some(MemoryReading { used: 1, total: 4 }),
    };
    let gpu_snap = gpu.tick(&g).unwrap();
    DashboardState::new(cpu_snap, gpu_snap)
}

#[test]
fn average_plot_draws_one_series_in_the_second_palette_colour() {
    let data = dashboard();
    let graph = UsageGraph::new(PlotType::AverageCPU);
    let scene = graph.paint(&data, 800_000, 600_000, &vec![]);
    assert_eq!(scene.series.len(), 1);
    assert_eq!(scene.series[0].color, palette_color(1));
    assert_eq!(scene.series[0].points.len(), 4);
    // Plot rectangle: fixed margins inside an 800x600 widget.
    assert_eq!(
        (scene.plot.x0, scene.plot.y0, scene.plot.x1, scene.plot.y1),
        (40_000, 10_000, 790_000, 570_000)
    );
    assert_eq!(scene.series[0].points[0].x, scene.plot.x0);
    assert_eq!(scene.series[0].points[3].x, scene.plot.x1);
    // Newest average sample is (10 + 20 + 60) / 3 = 30%.
    let h = scene.plot.y1 - scene.plot.y0;
    let expected_y = scene.plot.y1 - 30_000 * h / 100_000;
    assert_eq!(scene.series[0].points[3].y, expected_y);
}

#[test]
fn per_core_plot_draws_every_core_with_cycling_colours_and_a_legend() {
    let data = dashboard();
    let graph = UsageGraph::new(PlotType::PerCoreCPU);
    let labels = vec![30_000i64, 30_000, 30_000];
    let scene = graph.paint(&data, 800_000, 600_000, &labels);
    assert_eq!(scene.series.len(), 3);
    for i in 0..3 {
        assert_eq!(scene.series[i].color, palette_color(i));
    }
    assert_eq!(scene.legend.len(), 3);
    for i in 0..3 {
        assert_eq!(scene.legend[i].color, palette_color(i));
    }
    // All three items fit on one row: each is 20 + 30 + 16 = 66 pixels
    // wide, starting 10 pixels inside the plot.
    assert_eq!((scene.legend[0].x, scene.legend[0].y), (50_000, 20_000));
    assert_eq!((scene.legend[1].x, scene.legend[1].y), (116_000, 20_000));
    assert_eq!((scene.legend[2].x, scene.legend[2].y), (182_000, 20_000));
}

#[test]
fn legend_wraps_inside_a_narrow_plot() {
    let data = dashboard();
    let graph = UsageGraph::new(PlotType::PerCoreCPU);
    let labels = vec![30_000i64, 30_000, 30_000];
    // Widget 200 pixels wide: plot x0 = 40, x1 = 190, legend origin 50,
    // limit 180. Items are 66 wide: 50+66=116 fits, 116+66=182 overflows.
    let scene = graph.paint(&data, 200_000, 600_000, &labels);
    assert_eq!((scene.legend[0].x, scene.legend[0].y), (50_000, 20_000));
    assert_eq!((scene.legend[1].x, scene.legend[1].y), (50_000, 40_000));
    assert_eq!((scene.legend[2].x, scene.legend[2].y), (50_000, 60_000));
}

#[test]
fn memory_plot_draws_the_memory_percentage_series() {
    let data = dashboard();
    let graph = UsageGraph::new(PlotType::RAM);
    let scene = graph.paint(&data, 800_000, 600_000, &vec![]);
    assert_eq!(scene.series.len(), 1);
    assert_eq!(scene.series[0].color, palette_color(2));
    assert_eq!(scene.legend.len(), 0);
    // Newest memory sample: 256 / 1024 = 25%.
    let h = scene.plot.y1 - scene.plot.y0;
    assert_eq!(scene.series[0].points[3].y, scene.plot.y1 - 25_000 * h / 100_000);
}

#[test]
fn vram_plot_draws_the_vram_percentage_series() {
    let data = dashboard();
    let scene = UsageGraph::new(PlotType::GPU).paint(&data, 800_000, 600_000, &vec![]);
    assert_eq!(scene.series.len(), 1);
    assert_eq!(scene.series[0].color, palette_color(3));
    let h = scene.plot.y1 - scene.plot.y0;
    assert_eq!(scene.series[0].points[3].y, scene.plot.y1 - 25_000 * h / 100_000);
}

#[test]
fn fan_plot_draws_one_series_per_fan_with_rpm_axis() {
    let data = dashboard();
    let labels = vec![30_000i64, 30_000];
    let scene = UsageGraph::new(PlotType::GPUFan).paint(&data, 800_000, 600_000, &labels);
    assert_eq!(scene.series.len(), 2);
    assert_eq!(scene.legend.len(), 2);
    // Fan axis gridlines step by a tenth of the maximum RPM.
    assert_eq!(scene.ticks[1].value, 300);
    assert_eq!(scene.ticks[10].value, 3000);
    // Fan speeds were stored as percentages: 750 / 3000 = 25%, full speed 100%.
    let h = scene.plot.y1 - scene.plot.y0;
    assert_eq!(scene.series[0].points[3].y, scene.plot.y1 - 25_000 * h / 100_000);
    assert_eq!(scene.series[1].points[3].y, scene.plot.y1 - 100_000 * h / 100_000);
}

#[test]
fn temperature_plot_draws_raw_degrees_on_the_percent_scale() {
    let data = dashboard();
    let scene = UsageGraph::new(PlotType::GPUTemp).paint(&data, 800_000, 600_000, &vec![]);
    assert_eq!(scene.series.len(), 1);
    assert_eq!(scene.series[0].color, palette_color(4));
    assert_eq!(scene.ticks[10].value, 100);
    // 65 degrees Celsius sits at 65% of the axis height.
    let h = scene.plot.y1 - scene.plot.y0;
    assert_eq!(scene.series[0].points[3].y, scene.plot.y1 - 65_000 * h / 100_000);
}

#[test]
fn every_plot_shows_eleven_gridlines() {
    let data = dashboard();
    for kind in [
        PlotType::AverageCPU,
        PlotType::PerCoreCPU,
        PlotType::RAM,
        PlotType::GPU,
        PlotType::GPUFan,
        PlotType::GPUTemp,
    ] {
        let labels = vec![30_000i64; 3];
        let labels = match kind {
            PlotType::PerCoreCPU => labels,
            PlotType::GPUFan => vec![30_000i64; 2],
            _ => vec![],
        };
        let scene = UsageGraph::new(kind).paint(&data, 800_000, 600_000, &labels);
        assert_eq!(scene.ticks.len(), 11);
        assert_eq!(scene.ticks[0].y, scene.plot.y1);
        assert_eq!(scene.ticks[10].y, scene.plot.y0);
    }
}

#[test]
fn compact_cpu_graph_cycles_four_colours_without_legend() {
    let mut cpu = CpuSampler::new(6, 3);
    let readings = vec![RawValue::Finite(50_000); 6];
    let cpu_snap = cpu.tick(&readings, 0, 1);
    let gpu = GpuSampler::new(0, 3, 3000, "b".to_string(), "n".to_string());
    let data = DashboardState::new(cpu_snap, gpu.publish(0, 0));
    let scene = CpuGraph::new().paint(&data, 800_000, 600_000);
    assert_eq!(scene.series.len(), 6);
    assert_eq!(scene.legend.len(), 0);
    for i in 0..6 {
        assert_eq!(scene.series[i].color, palette_color(i % 4));
    }
    assert_eq!(scene.series[4].color, scene.series[0].color);
}

#[test]
fn state_replacement_swaps_one_subsystem_only() {
    let mut data = dashboard();
    let gpu_before = data.gpu.clone();
    let mut cpu = CpuSampler::new(3, 4);
    let readings = vec![RawValue::Finite(0); 3];
    let fresh = cpu.tick(&readings, 1, 2);
    data.apply_cpu(fresh);
    assert_eq!(data.cpu.used_memory_bytes, 1);
    assert_eq!(data.gpu.temperature_values(), gpu_before.temperature_values());
}
