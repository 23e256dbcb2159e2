//! Legend layout: a left-to-right flow of swatch-plus-label items that
//! wraps to a fresh row exactly at the item that would cross the plot's
//! right boundary.
//!
//! Widths and positions are in milli-pixels; the caller measures each
//! label's rendered width and hands the item widths in.

use vstd::prelude::*;

use crate::geometry::COORD_LIMIT;

verus! {

/// Horizontal gap left between the legend and the plot's right edge.
pub const LEGEND_RIGHT_MARGIN: i64 = 10_000;

/// Vertical gap between legend rows.
pub const LEGEND_ROW_SPACING: i64 = 4_000;

/// Horizontal gap appended after every legend item.
pub const LEGEND_ITEM_SPACING: i64 = 16_000;

/// Length of the coloured sample line drawn before a label.
pub const LEGEND_SAMPLE_LEN: i64 = 8_000;

/// Vertical offset of the sample line below the label's top.
pub const LEGEND_TEXT_BASELINE: i64 = 6_000;

/// Most legend items a single plot may lay out.
pub const LEGEND_ITEM_LIMIT: usize = 100_000;

/// Horizontal offset of a label behind its item's left edge; the
/// coloured sample line is drawn in this gap.
pub const LEGEND_TEXT_OFFSET: i64 = 20_000;

/// Height of one legend row, excluding the spacing below it.
pub const LEGEND_ITEM_HEIGHT: i64 = 16_000;

/// Offset of the legend's origin from the plot's top-left corner.
pub const LEGEND_INSET: i64 = 10_000;

/// The full width each legend item occupies in the flow: the text
/// offset, the label's measured width, and the trailing spacing.
pub open spec fn legend_item_widths(label_widths: Seq<i64>) -> Seq<int> {
    label_widths.map_values(|w: i64| LEGEND_TEXT_OFFSET + w + LEGEND_ITEM_SPACING)
}

/// Where each of a row of items lands: the layout walks left to right
/// from `(ox, oy)`; an item whose width would carry the cursor past
/// `limit` starts a fresh row `row_step` lower at `ox` instead.
pub open spec fn legend_layout(iw: Seq<int>, ox: int, oy: int, limit: int, row_step: int) -> Seq<
    (int, int),
>
    decreases iw.len(),
{
    if iw.len() == 0 {
        Seq::empty()
    } else {
        let prev = legend_layout(iw.drop_last(), ox, oy, limit, row_step);
        let cursor = if iw.len() == 1 {
            (ox, oy)
        } else {
            (prev.last().0 + iw[iw.len() - 2], prev.last().1)
        };
        let pos = if cursor.0 + iw.last() > limit {
            (ox, cursor.1 + row_step)
        } else {
            cursor
        };
        prev.push(pos)
    }
}

/// The layout places every item exactly once.
pub proof fn lemma_legend_layout_len(iw: Seq<int>, ox: int, oy: int, limit: int, row_step: int)
    ensures
        legend_layout(iw, ox, oy, limit, row_step).len() == iw.len(),
    decreases iw.len(),
{
    if iw.len() > 0 {
        lemma_legend_layout_len(iw.drop_last(), ox, oy, limit, row_step);
    }
}

/// An item's slot is settled by its prefix: position `j` of the full
/// layout is the last position of the layout of the first `j + 1` items.
proof fn lemma_legend_layout_index(
    iw: Seq<int>,
    ox: int,
    oy: int,
    limit: int,
    row_step: int,
    j: int,
)
    requires
        0 <= j < iw.len(),
    ensures
        legend_layout(iw, ox, oy, limit, row_step)[j] == legend_layout(
            iw.take(j + 1),
            ox,
            oy,
            limit,
            row_step,
        ).last(),
    decreases iw.len(),
{
    lemma_legend_layout_len(iw, ox, oy, limit, row_step);
    lemma_legend_layout_len(iw.take(j + 1), ox, oy, limit, row_step);
    if j == iw.len() - 1 {
        assert(iw.take(j + 1) =~= iw);
    } else {
        lemma_legend_layout_len(iw.drop_last(), ox, oy, limit, row_step);
        lemma_legend_layout_index(iw.drop_last(), ox, oy, limit, row_step, j);
        assert(iw.drop_last().take(j + 1) =~= iw.take(j + 1));
        assert(legend_layout(iw, ox, oy, limit, row_step)[j] == legend_layout(
            iw.drop_last(),
            ox,
            oy,
            limit,
            row_step,
        )[j]);
    }
}

/// Legend wrap law: item `i` starts a fresh row exactly when placing it
/// at the running cursor would cross the right limit — never earlier,
/// never later — and it then starts at the row origin, one row step
/// further down; otherwise it sits exactly at the cursor.
pub proof fn lemma_legend_wrap_exact(
    iw: Seq<int>,
    ox: int,
    oy: int,
    limit: int,
    row_step: int,
    i: int,
)
    requires
        0 <= i < iw.len(),
    ensures
        ({
            let lay = legend_layout(iw, ox, oy, limit, row_step);
            let cursor_x = if i == 0 {
                ox
            } else {
                lay[i - 1].0 + iw[i - 1]
            };
            let cursor_y = if i == 0 {
                oy
            } else {
                lay[i - 1].1
            };
            lay[i] == if cursor_x + iw[i] > limit {
                (ox, cursor_y + row_step)
            } else {
                (cursor_x, cursor_y)
            }
        }),
{
    let lay = legend_layout(iw, ox, oy, limit, row_step);
    lemma_legend_layout_len(iw, ox, oy, limit, row_step);
    lemma_legend_layout_index(iw, ox, oy, limit, row_step, i);
    let head = iw.take(i + 1);
    lemma_legend_layout_len(head, ox, oy, limit, row_step);
    assert(head.drop_last() =~= iw.take(i as int));
    lemma_legend_layout_len(iw.take(i as int), ox, oy, limit, row_step);
    if i > 0 {
        lemma_legend_layout_index(iw, ox, oy, limit, row_step, i - 1);
        assert(iw.take(i as int).take(i as int) =~= iw.take(i as int));
    }
}

/// A placed legend slot: the top-left corner of one swatch-plus-label
/// item, in milli-pixel screen coordinates.
#[derive(Clone, Copy, PartialEq, Eq, Structural, Debug)]
pub struct LegendSlot {
    pub x: i64,
    pub y: i64,
}

/// Lay a row of legend items out left to right from `(origin_x,
/// origin_y)`, wrapping to a fresh row exactly at each item that would
/// cross `limit`.
pub fn layout_legend(
    item_widths: &Vec<i64>,
    origin_x: i64,
    origin_y: i64,
    limit: i64,
    row_step: i64,
) -> (slots: Vec<LegendSlot>)
    requires
        0 <= origin_x <= COORD_LIMIT,
        0 <= origin_y <= COORD_LIMIT,
        0 <= limit <= COORD_LIMIT,
        0 <= row_step <= COORD_LIMIT,
        item_widths@.len() <= LEGEND_ITEM_LIMIT,
        forall|j: int| 0 <= j < item_widths@.len() ==> 0 <= #[trigger] item_widths@[j] <= COORD_LIMIT,
    ensures
        slots@.len() == item_widths@.len(),
        forall|j: int|
            0 <= j < slots@.len() ==> (#[trigger] slots@[j]).x == legend_layout(
                item_widths@.map_values(|w: i64| w as int),
                origin_x as int,
                origin_y as int,
                limit as int,
                row_step as int,
            )[j].0 && slots@[j].y == legend_layout(
                item_widths@.map_values(|w: i64| w as int),
                origin_x as int,
                origin_y as int,
                limit as int,
                row_step as int,
            )[j].1,
{
    let ghost iw = item_widths@.map_values(|w: i64| w as int);
    let n = item_widths.len();
    let mut slots: Vec<LegendSlot> = Vec::new();
    let mut x: i64 = origin_x;
    let mut y: i64 = origin_y;
    let mut i: usize = 0;
    while i < n
        invariant
            iw == item_widths@.map_values(|w: i64| w as int),
            n == item_widths@.len(),
            n <= LEGEND_ITEM_LIMIT,
            0 <= origin_x <= COORD_LIMIT,
            0 <= origin_y <= COORD_LIMIT,
            0 <= limit <= COORD_LIMIT,
            0 <= row_step <= COORD_LIMIT,
            forall|j: int|
                0 <= j < item_widths@.len() ==> 0 <= #[trigger] item_widths@[j] <= COORD_LIMIT,
            i <= n,
            slots@.len() == i,
            forall|j: int|
                0 <= j < i ==> (#[trigger] slots@[j]).x == legend_layout(
                    iw,
                    origin_x as int,
                    origin_y as int,
                    limit as int,
                    row_step as int,
                )[j].0 && slots@[j].y == legend_layout(
                    iw,
                    origin_x as int,
                    origin_y as int,
                    limit as int,
                    row_step as int,
                )[j].1,
            ({
                let lay = legend_layout(
                    iw.take(i as int),
                    origin_x as int,
                    origin_y as int,
                    limit as int,
                    row_step as int,
                );
                if i == 0 {
                    x == origin_x && y == origin_y
                } else {
                    x == lay.last().0 + iw[i - 1] && y == lay.last().1
                }
            }),
            0 <= x <= 2 * COORD_LIMIT,
            0 <= y,
            y as int <= COORD_LIMIT + (i as int) * (row_step as int),
        decreases n - i,
    {
        let w = item_widths[i];
        proof {
            assert(iw[i as int] == item_widths@[i as int]);
            assert((i as int) * (row_step as int) <= 100_000 * 0x8000_0000i64)
                by (nonlinear_arith)
                requires
                    0 <= i as int <= 100_000,
                    0 <= row_step as int <= 0x8000_0000i64,
            ;
            assert((i as int) * (row_step as int) + (row_step as int) == ((i as int) + 1) * (
            row_step as int)) by (nonlinear_arith);
        }
        if x + w > limit {
            x = origin_x;
            y = y + row_step;
        }
        slots.push(LegendSlot { x, y });
        proof {
            lemma_legend_layout_len(iw, origin_x as int, origin_y as int, limit as int, row_step as int);
            lemma_legend_layout_index(
                iw,
                origin_x as int,
                origin_y as int,
                limit as int,
                row_step as int,
                i as int,
            );
            let head = iw.take(i + 1);
            lemma_legend_layout_len(
                head,
                origin_x as int,
                origin_y as int,
                limit as int,
                row_step as int,
            );
            assert(head.drop_last() =~= iw.take(i as int));
            assert(head.last() == iw[i as int]);
            if i > 0 {
                assert(head[i - 1] == iw[i - 1]);
            }
            assert(iw.take(i + 1).take(i + 1 as int) =~= iw.take(i + 1));
        }
        x = x + w;
        i = i + 1;
    }
    proof {
        lemma_legend_layout_len(iw, origin_x as int, origin_y as int, limit as int, row_step as int);
    }
    slots
}

} // verus!
