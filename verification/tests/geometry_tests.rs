use system_monitor::PlotRect;
use system_monitor::axis_ticks;
use system_monitor::fill_polygon;
use system_monitor::polyline;

fn rect() -> PlotRect {
    PlotRect { x0: 40_000, y0: 10_000, x1: 240_000, y1: 110_000 }
}

#[test]
fn first_sample_sits_on_left_edge_and_last_on_right_edge() {
    let values = vec![0, 25_000, 50_000, 75_000, 100_000];
    let r = rect();
    let pts = polyline(&values, &r, 100_000);
    assert_eq!(pts.len(), 5);
    assert_eq!(pts[0].x, r.x0);
    assert_eq!(pts[4].x, r.x1);
}

#[test]
fn x_positions_step_evenly() {
    let values = vec![0, 0, 0, 0, 0];
    let pts = polyline(&values, &rect(), 100_000);
    // width 200_000 over 4 steps: 50_000 milli-pixels per sample.
    let xs: Vec<i64> = pts.iter().map(|p| p.x).collect();
    assert_eq!(xs, vec![40_000, 90_000, 140_000, 190_000, 240_000]);
}

#[test]
fn y_positions_scale_against_the_divisor() {
    let values = vec![0, 25_000, 50_000, 75_000, 100_000];
    let pts = polyline(&values, &rect(), 100_000);
    // height 100_000: y = y1 - value * height / divisor = 110_000 - value.
    let ys: Vec<i64> = pts.iter().map(|p| p.y).collect();
    assert_eq!(ys, vec![110_000, 85_000, 60_000, 35_000, 10_000]);
}

#[test]
fn right_edge_is_exact_for_depths_that_do_not_divide_the_width() {
    // 7 samples over a width of 200_000: 200_000 / 6 leaves a remainder.
    let values = vec![0; 7];
    let r = rect();
    let pts = polyline(&values, &r, 100_000);
    assert_eq!(pts[0].x, r.x0);
    assert_eq!(pts[6].x, r.x1);
}

#[test]
fn fill_polygon_closes_to_the_bottom_corners() {
    let values = vec![10_000, 20_000];
    let r = rect();
    let pts = polyline(&values, &r, 100_000);
    let poly = fill_polygon(&pts, &r);
    assert_eq!(poly.len(), 4);
    assert_eq!((poly[0].x, poly[0].y), (pts[0].x, pts[0].y));
    assert_eq!((poly[1].x, poly[1].y), (pts[1].x, pts[1].y));
    assert_eq!((poly[2].x, poly[2].y), (r.x1, r.y1));
    assert_eq!((poly[3].x, poly[3].y), (r.x0, r.y1));
}

#[test]
fn eleven_percentage_gridlines_from_bottom_to_top() {
    let r = rect();
    let ticks = axis_ticks(&r, 10);
    assert_eq!(ticks.len(), 11);
    for (i, t) in ticks.iter().enumerate() {
        assert_eq!(t.y, 110_000 - (i as i64) * 10_000);
        assert_eq!(t.value, (i as u64) * 10);
    }
    assert_eq!(ticks[0].y, r.y1);
    assert_eq!(ticks[10].y, r.y0);
}

#[test]
fn fan_axis_labels_step_by_a_tenth_of_max_rpm() {
    let ticks = axis_ticks(&rect(), system_monitor::MAX_RPM / 10);
    assert_eq!(ticks[1].value, 300);
    assert_eq!(ticks[10].value, 3000);
}
