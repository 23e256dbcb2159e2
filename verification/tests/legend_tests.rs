use system_monitor::layout_legend;
use system_monitor::palette_color;
use system_monitor::palette_color_compact;

#[test]
fn items_flow_left_to_right_until_one_would_overflow() {
    let widths = vec![50_000i64, 50_000, 50_000];
    let slots = layout_legend(&widths, 0, 0, 120_000, 20_000);
    assert_eq!(slots.len(), 3);
    // Items 0 and 1 fit on the first row; item 2 would reach 150_000,
    // past the 120_000 limit, so exactly it wraps.
    assert_eq!((slots[0].x, slots[0].y), (0, 0));
    assert_eq!((slots[1].x, slots[1].y), (50_000, 0));
    assert_eq!((slots[2].x, slots[2].y), (0, 20_000));
}

#[test]
fn wrap_never_happens_early() {
    // Item 1 ends exactly on the limit: no wrap for it, only for item 2.
    let widths = vec![60_000i64, 60_000, 1];
    let slots = layout_legend(&widths, 0, 0, 120_000, 20_000);
    assert_eq!((slots[1].x, slots[1].y), (60_000, 0));
    assert_eq!((slots[2].x, slots[2].y), (0, 20_000));
}

#[test]
fn an_item_wider_than_the_row_still_wraps_once() {
    let widths = vec![130_000i64];
    let slots = layout_legend(&widths, 0, 0, 120_000, 20_000);
    // Even the first item wraps when it cannot fit the first row.
    assert_eq!((slots[0].x, slots[0].y), (0, 20_000));
}

#[test]
fn rows_restart_at_the_origin() {
    let widths = vec![70_000i64, 70_000, 70_000, 70_000];
    let slots = layout_legend(&widths, 5_000, 3_000, 100_000, 20_000);
    assert_eq!((slots[0].x, slots[0].y), (5_000, 3_000));
    assert_eq!((slots[1].x, slots[1].y), (5_000, 23_000));
    assert_eq!((slots[2].x, slots[2].y), (5_000, 43_000));
    assert_eq!((slots[3].x, slots[3].y), (5_000, 63_000));
}

#[test]
fn empty_legend_lays_out_nothing() {
    let widths: Vec<i64> = vec![];
    let slots = layout_legend(&widths, 0, 0, 100_000, 20_000);
    assert_eq!(slots.len(), 0);
}

#[test]
fn palette_colour_depends_only_on_index_modulo_palette_size() {
    for i in 0..36usize {
        assert_eq!(palette_color(i), palette_color(i % 12));
        assert_eq!(palette_color(i), palette_color(i + 12));
    }
    assert_ne!(palette_color(0), palette_color(1));
}

#[test]
fn palette_first_entries_match_the_fixed_palette() {
    let c0 = palette_color(0);
    assert_eq!((c0.r, c0.g, c0.b), (0, 128, 255));
    let c1 = palette_color(1);
    assert_eq!((c1.r, c1.g, c1.b), (0, 200, 128));
    let c11 = palette_color(11);
    assert_eq!((c11.r, c11.g, c11.b), (128, 128, 0));
}

#[test]
fn compact_palette_cycles_through_four_colours() {
    for i in 0..8usize {
        assert_eq!(palette_color_compact(i), palette_color_compact(i + 4));
        assert_eq!(palette_color_compact(i), palette_color(i % 4));
    }
}
