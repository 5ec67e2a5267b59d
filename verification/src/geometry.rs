//! What a placement means on a screen, in exact arithmetic.

use vstd::prelude::*;

use crate::action::{MacosWindowFrame, MacosWindowPreset};
use crate::placement::{
    block, cell, fills, frame_placement, preset_placement, AxisRule, Placement, Slice,
    BASIS_POINTS,
};

verus! {

/// A stretch of a coordinate axis.
pub struct Extent {
    pub start: real,
    pub size: real,
}

/// The size that a window keeps in an area: its own, cut down to that of the area.
pub open spec fn kept_size(area: Extent, window: Extent) -> real {
    if window.size <= area.size {
        window.size
    } else {
        area.size
    }
}

/// `value`, moved by no more than it takes to be between `low` and `high`.
pub open spec fn clamped(value: real, low: real, high: real) -> real {
    if value < low {
        low
    } else if value > high {
        high
    } else {
        value
    }
}

/// The part of an area that a slice of it takes up.
pub open spec fn sliced(slice: Slice, area: Extent) -> Extent {
    let parts = 2real * (slice.parts as real);
    Extent {
        start: area.start + area.size * (slice.start_halves as real) / parts,
        size: area.size * (slice.extent_halves as real) / parts,
    }
}

/// Where a rule puts a window, along one axis of the work area.
pub open spec fn placed(rule: AxisRule, area: Extent, window: Extent) -> Extent {
    let size = kept_size(area, window);
    let last = area.start + area.size - size;
    match rule {
        AxisRule::Slice(slice) => sliced(slice, area),
        AxisRule::Center => Extent { start: area.start + (area.size - size) / 2real, size },
        AxisRule::Near => Extent { start: area.start, size },
        AxisRule::Far => Extent { start: last, size },
        AxisRule::Keep => Extent { start: clamped(window.start, area.start, last), size },
    }
}

/// Whether a stretch lies inside an area.
pub open spec fn inside(inner: Extent, area: Extent) -> bool {
    &&& area.start <= inner.start
    &&& inner.start + inner.size <= area.start + area.size
}

/// How far two points are apart.
pub open spec fn distance(a: real, b: real) -> real {
    if a <= b {
        b - a
    } else {
        a - b
    }
}

/// Whether a slice lies within the whole that it is cut from.
pub open spec fn is_within(slice: Slice) -> bool {
    &&& slice.parts > 0
    &&& 0 <= slice.start_halves
    &&& 0 <= slice.extent_halves
    &&& slice.start_halves + slice.extent_halves <= 2 * slice.parts
}

/// Centering and moving put the window inside the work area.
pub proof fn law_moved_window_is_inside(rule: AxisRule, area: Extent, window: Extent)
    requires
        !(rule is Slice),
        area.size >= 0real,
    ensures
        inside(placed(rule, area, window), area),
        placed(rule, area, window).size == kept_size(area, window),
{
}

/// A window that is moved to a side touches it: the start of the work area, or its end.
pub proof fn law_moved_window_touches_its_side(area: Extent, window: Extent)
    ensures
        placed(AxisRule::Near, area, window).start == area.start,
        placed(AxisRule::Far, area, window).start + placed(AxisRule::Far, area, window).size
            == area.start + area.size,
{
}

/// Placing a window a second time by the same rule changes nothing.
pub proof fn law_placing_again_changes_nothing(rule: AxisRule, area: Extent, window: Extent)
    ensures
        placed(rule, area, placed(rule, area, window)) == placed(rule, area, window),
{
}

/// A window that is already inside stays where it is along the axis that it is not moved on.
pub proof fn law_window_inside_is_kept(area: Extent, window: Extent)
    requires
        inside(window, area),
    ensures
        placed(AxisRule::Keep, area, window) == window,
{
}

/// A centered window leaves the same margin on both sides.
pub proof fn law_center_has_equal_margins(area: Extent, window: Extent)
    ensures
        placed(AxisRule::Center, area, window).start - area.start == (area.start + area.size) - (
        placed(AxisRule::Center, area, window).start + placed(AxisRule::Center, area, window).size),
{
}

/// No other place inside the work area is nearer to where the window was.
pub proof fn law_keep_moves_least(area: Extent, window: Extent, other: real)
    requires
        area.start <= other <= area.start + area.size - kept_size(area, window),
    ensures
        distance(placed(AxisRule::Keep, area, window).start, window.start) <= distance(
            other,
            window.start,
        ),
{
}

/// A fraction between nothing and the whole of a size is between nothing and the size.
proof fn lemma_fraction(size: real, n: real, d: real)
    by (nonlinear_arith)
    requires
        size >= 0real,
        0real <= n <= d,
        d > 0real,
    ensures
        0real <= size * n / d <= size,
{
}

/// Fractions with one denominator add up.
proof fn lemma_fractions_add(size: real, a: real, b: real, d: real)
    by (nonlinear_arith)
    requires
        d > 0real,
    ensures
        size * a / d + size * b / d == size * (a + b) / d,
{
}

/// A slice that lies within the whole is inside the work area.
pub proof fn law_slice_is_inside(slice: Slice, area: Extent)
    requires
        is_within(slice),
        area.size >= 0real,
    ensures
        inside(sliced(slice, area), area),
        sliced(slice, area).size >= 0real,
{
    let start = slice.start_halves as real;
    let extent = slice.extent_halves as real;
    let parts = 2real * (slice.parts as real);
    assert(start + extent == (slice.start_halves + slice.extent_halves) as real);
    assert(parts == (2 * slice.parts) as real);
    lemma_fraction(area.size, start, parts);
    lemma_fraction(area.size, extent, parts);
    lemma_fraction(area.size, start + extent, parts);
    lemma_fractions_add(area.size, start, extent, parts);
}

/// Equal fractions of a size are equal.
proof fn lemma_equal_fractions(size: real, n: real, parts: real, m: real)
    requires
        parts > 0real,
        60real * n == m * parts,
    ensures
        size * n / (2real * parts) == size * m / 120real,
{
    let q = n / parts;
    assert(n == q * parts) by (nonlinear_arith)
        requires
            q == n / parts,
            parts > 0real,
    ;
    assert(m == 60real * q) by (nonlinear_arith)
        requires
            n == q * parts,
            60real * n == m * parts,
            parts > 0real,
    ;
    assert(size * n / (2real * parts) == size * q / 2real) by (nonlinear_arith)
        requires
            n == q * parts,
            parts > 0real,
    ;
    assert(size * m / 120real == size * q / 2real) by (nonlinear_arith)
        requires
            m == 60real * q,
    ;
}

/// A rule that fills the stretch between two 120ths puts the window there.
pub proof fn law_filled_stretch(rule: AxisRule, from: int, to: int, area: Extent, window: Extent)
    requires
        fills(rule, from, to),
    ensures
        placed(rule, area, window).start == area.start + area.size * (from as real) / 120real,
        placed(rule, area, window).size == area.size * ((to - from) as real) / 120real,
{
    let slice = rule->Slice_0;
    let parts = slice.parts as real;
    assert(60real * (slice.start_halves as real) == (from as real) * parts) by {
        lemma_products_as_reals(60, slice.start_halves as int);
        lemma_products_as_reals(from, slice.parts as int);
    }
    assert(60 * slice.extent_halves == (to - from) * slice.parts) by (nonlinear_arith)
        requires
            60 * slice.start_halves == from * slice.parts,
            60 * (slice.start_halves + slice.extent_halves) == to * slice.parts,
    ;
    assert(60real * (slice.extent_halves as real) == ((to - from) as real) * parts) by {
        lemma_products_as_reals(60, slice.extent_halves as int);
        lemma_products_as_reals(to - from, slice.parts as int);
    }
    lemma_equal_fractions(area.size, slice.start_halves as real, parts, from as real);
    lemma_equal_fractions(area.size, slice.extent_halves as real, parts, (to - from) as real);
}

/// A product of integers is the product of these as real numbers.
proof fn lemma_products_as_reals(a: int, b: int)
    by (nonlinear_arith)
    ensures
        (a * b) as real == (a as real) * (b as real),
{
}

/// Every preset puts the window inside the work area, whatever the window was.
pub proof fn law_presets_put_the_window_inside(
    preset: MacosWindowPreset,
    width: Extent,
    height: Extent,
    window_width: Extent,
    window_height: Extent,
)
    requires
        width.size >= 0real,
        height.size >= 0real,
    ensures
        inside(placed(preset_placement(preset).horizontal, width, window_width), width),
        inside(placed(preset_placement(preset).vertical, height, window_height), height),
{
    let placement = preset_placement(preset);
    match placement.horizontal {
        AxisRule::Slice(slice) => law_slice_is_inside(slice, width),
        _ => law_moved_window_is_inside(placement.horizontal, width, window_width),
    }
    match placement.vertical {
        AxisRule::Slice(slice) => law_slice_is_inside(slice, height),
        _ => law_moved_window_is_inside(placement.vertical, height, window_height),
    }
}

/// A frame that lies within the whole puts the window inside the work area.
pub proof fn law_frame_within_is_inside(
    frame: MacosWindowFrame,
    width: Extent,
    height: Extent,
    window_width: Extent,
    window_height: Extent,
)
    requires
        0 <= frame.x,
        0 <= frame.width,
        frame.x + frame.width <= BASIS_POINTS,
        0 <= frame.y,
        0 <= frame.height,
        frame.y + frame.height <= BASIS_POINTS,
        width.size >= 0real,
        height.size >= 0real,
    ensures
        inside(placed(frame_placement(frame).horizontal, width, window_width), width),
        inside(placed(frame_placement(frame).vertical, height, window_height), height),
{
    law_slice_is_inside(frame_placement(frame).horizontal->Slice_0, width);
    law_slice_is_inside(frame_placement(frame).vertical->Slice_0, height);
}

/// A frame puts the window where its own numbers say: it starts `x` and `y` ten-thousandths
/// of the work area from its left and top, and takes `width` and `height` ten-thousandths.
pub proof fn law_frame_is_placed_by_its_numbers(
    frame: MacosWindowFrame,
    width: Extent,
    height: Extent,
    window_width: Extent,
    window_height: Extent,
)
    ensures
        placed(frame_placement(frame).horizontal, width, window_width) == (Extent {
            start: width.start + width.size * (frame.x as real) / 10_000real,
            size: width.size * (frame.width as real) / 10_000real,
        }),
        placed(frame_placement(frame).vertical, height, window_height) == (Extent {
            start: height.start + height.size * (frame.y as real) / 10_000real,
            size: height.size * (frame.height as real) / 10_000real,
        }),
{
    assert((2 * frame.x) as real == 2real * (frame.x as real));
    assert((2 * frame.y) as real == 2real * (frame.y as real));
    assert((2 * frame.width) as real == 2real * (frame.width as real));
    assert((2 * frame.height) as real == 2real * (frame.height as real));
    lemma_halved(width.size, frame.x as real, 10_000real);
    lemma_halved(width.size, frame.width as real, 10_000real);
    lemma_halved(height.size, frame.y as real, 10_000real);
    lemma_halved(height.size, frame.height as real, 10_000real);
}

/// A block starts as many half columns and half rows from the left and the top as it says,
/// and is as long as its columns and rows together.
pub proof fn law_block_is_placed_by_its_numbers(
    column_halves: i64,
    row_halves: i64,
    column_span: u32,
    row_span: u32,
    columns: u32,
    rows: u32,
    width: Extent,
    height: Extent,
    window_width: Extent,
    window_height: Extent,
)
    requires
        columns > 0,
        rows > 0,
    ensures
        ({
            let placement = block(column_halves, row_halves, column_span, row_span, columns, rows);
            let half_column = width.size / (2real * (columns as real));
            let half_row = height.size / (2real * (rows as real));
            &&& placed(placement.horizontal, width, window_width).start == width.start
                + half_column * (column_halves as real)
            &&& placed(placement.horizontal, width, window_width).size == half_column * 2real * (
            column_span as real)
            &&& placed(placement.vertical, height, window_height).start == height.start + half_row
                * (row_halves as real)
            &&& placed(placement.vertical, height, window_height).size == half_row * 2real * (
            row_span as real)
        }),
{
    assert((2 * column_span) as real == 2real * (column_span as real));
    assert((2 * row_span) as real == 2real * (row_span as real));
    lemma_share(width.size, column_halves as real, 2real * (columns as real));
    lemma_share(width.size, 2real * (column_span as real), 2real * (columns as real));
    lemma_share(height.size, row_halves as real, 2real * (rows as real));
    lemma_share(height.size, 2real * (row_span as real), 2real * (rows as real));
    let half_column = width.size / (2real * (columns as real));
    let half_row = height.size / (2real * (rows as real));
    lemma_regroup(half_column, column_span as real);
    lemma_regroup(half_row, row_span as real);
}

/// A multiple of a share.
proof fn lemma_share(size: real, n: real, d: real)
    by (nonlinear_arith)
    requires
        d > 0real,
    ensures
        size * n / d == size / d * n,
{
}

/// Twice a product, grouped the other way.
proof fn lemma_regroup(a: real, b: real)
    by (nonlinear_arith)
    ensures
        a * (2real * b) == a * 2real * b,
{
}

/// Whether a point of the axis lies in a stretch, its ends included.
pub open spec fn covers(stretch: Extent, point: real) -> bool {
    stretch.start <= point <= stretch.start + stretch.size
}

/// Whether a point of the axis lies between the ends of a stretch.
pub open spec fn covers_within(stretch: Extent, point: real) -> bool {
    stretch.start < point < stretch.start + stretch.size
}

/// Half of a doubled count is the count.
proof fn lemma_halved(size: real, n: real, d: real)
    by (nonlinear_arith)
    requires
        d > 0real,
    ensures
        size * (2real * n) / (2real * d) == size * n / d,
{
}

/// Comparing a fraction is comparing across.
proof fn lemma_fraction_against(a: real, d: real, x: real)
    by (nonlinear_arith)
    requires
        d > 0real,
    ensures
        a / d <= x <==> a <= x * d,
        a / d < x <==> a < x * d,
        x <= a / d <==> x * d <= a,
        x < a / d <==> x * d < a,
{
}

/// All the cells of a grid have one size, the work area's divided by their number, and
/// they come one after the other: columns from the left, rows from the top.
pub proof fn law_grid_cells_line_up(
    column: u32,
    row: u32,
    columns: u32,
    rows: u32,
    width: Extent,
    height: Extent,
    window_width: Extent,
    window_height: Extent,
)
    requires
        columns > 0,
        rows > 0,
    ensures
        placed(cell(column, row, columns, rows).horizontal, width, window_width) == (Extent {
            start: width.start + width.size * (column as real) / (columns as real),
            size: width.size / (columns as real),
        }),
        placed(cell(column, row, columns, rows).vertical, height, window_height) == (Extent {
            start: height.start + height.size * (row as real) / (rows as real),
            size: height.size / (rows as real),
        }),
{
    assert((2 * column) as real == 2real * (column as real));
    assert((2 * row) as real == 2real * (row as real));
    assert(width.size * 1real == width.size);
    assert(height.size * 1real == height.size);
    lemma_halved(width.size, column as real, columns as real);
    lemma_halved(width.size, 1real, columns as real);
    lemma_halved(height.size, row as real, rows as real);
    lemma_halved(height.size, 1real, rows as real);
}

/// A number between 0 and `n` lies between two neighbouring integers of that range.
proof fn lemma_between_integers(t: real, n: int) -> (c: int)
    requires
        n > 0,
        0real <= t <= n as real,
    ensures
        0 <= c < n,
        c as real <= t <= (c + 1) as real,
    decreases n,
{
    if (n - 1) as real <= t {
        n - 1
    } else {
        lemma_between_integers(t, n - 1)
    }
}

/// One of `n` equal parts of an area covers a point of it.
proof fn lemma_part_covers(area: Extent, n: int, point: real) -> (c: int)
    requires
        n > 0,
        area.size > 0real,
        covers(area, point),
    ensures
        0 <= c < n,
        covers(
            Extent {
                start: area.start + area.size * (c as real) / (n as real),
                size: area.size / (n as real),
            },
            point,
        ),
{
    let size = area.size;
    let d = n as real;
    let u = point - area.start;
    let t = u * d / size;
    assert(0real <= u * d <= size * d) by (nonlinear_arith)
        requires
            0real <= u <= size,
            d > 0real,
    ;
    assert(d * size == size * d) by (nonlinear_arith);
    assert(0real * size == 0real) by (nonlinear_arith);
    lemma_fraction_against(u * d, size, 0real);
    lemma_fraction_against(u * d, size, d);
    let c = lemma_between_integers(t, n);
    let k = c as real;
    lemma_fraction_against(u * d, size, k);
    lemma_fraction_against(u * d, size, k + 1real);
    assert(k * size == size * k && (k + 1real) * size == size * k + size) by (nonlinear_arith);
    lemma_fraction_against(size * k, d, u);
    lemma_fraction_against(size * k + size, d, u);
    assert(size * k / d + size / d == (size * k + size) / d) by (nonlinear_arith)
        requires
            d > 0real,
    ;
    c
}

/// Each of `n` equal parts of an area lies inside it.
proof fn lemma_part_is_inside(area: Extent, c: int, n: int)
    requires
        0 <= c < n,
        area.size > 0real,
    ensures
        inside(
            Extent {
                start: area.start + area.size * (c as real) / (n as real),
                size: area.size / (n as real),
            },
            area,
        ),
{
    let size = area.size;
    let k = c as real;
    let d = n as real;
    lemma_fraction(size, k, d);
    lemma_fraction(size, k + 1real, d);
    lemma_fractions_add(size, k, 1real, d);
    assert(size * 1real == size);
}

/// Two different parts have no point between their ends in common.
proof fn lemma_parts_are_apart(area: Extent, a: int, b: int, n: int, point: real)
    requires
        n > 0,
        area.size > 0real,
        a < b,
    ensures
        !(covers_within(
            Extent {
                start: area.start + area.size * (a as real) / (n as real),
                size: area.size / (n as real),
            },
            point,
        ) && covers_within(
            Extent {
                start: area.start + area.size * (b as real) / (n as real),
                size: area.size / (n as real),
            },
            point,
        )),
{
    let size = area.size;
    let d = n as real;
    let i = a as real;
    let j = b as real;
    assert(i + 1real <= j);
    lemma_fractions_add(size, i, 1real, d);
    assert(size * 1real == size);
    assert(size * (i + 1real) / d <= size * j / d) by (nonlinear_arith)
        requires
            size > 0real,
            d > 0real,
            i + 1real <= j,
    ;
}

/// Whether a placement covers a point of the screen.
pub open spec fn covers_point(
    placement: Placement,
    width: Extent,
    height: Extent,
    window_width: Extent,
    window_height: Extent,
    x: real,
    y: real,
) -> bool {
    &&& covers(placed(placement.horizontal, width, window_width), x)
    &&& covers(placed(placement.vertical, height, window_height), y)
}

/// Whether a point of the screen lies between the sides of a placement.
pub open spec fn covers_point_within(
    placement: Placement,
    width: Extent,
    height: Extent,
    window_width: Extent,
    window_height: Extent,
    x: real,
    y: real,
) -> bool {
    &&& covers_within(placed(placement.horizontal, width, window_width), x)
    &&& covers_within(placed(placement.vertical, height, window_height), y)
}

/// The cells of a grid together are the work area: a point lies in the area exactly where
/// it lies in one of them.
pub proof fn law_grid_cells_make_up_the_area(
    columns: u32,
    rows: u32,
    width: Extent,
    height: Extent,
    window_width: Extent,
    window_height: Extent,
    x: real,
    y: real,
)
    requires
        columns > 0,
        rows > 0,
        width.size > 0real,
        height.size > 0real,
    ensures
        covers(width, x) && covers(height, y) <==> exists|column: u32, row: u32|
            column < columns && row < rows && covers_point(
                #[trigger] cell(column, row, columns, rows),
                width,
                height,
                window_width,
                window_height,
                x,
                y,
            ),
{
    if covers(width, x) && covers(height, y) {
        let column = lemma_part_covers(width, columns as int, x) as u32;
        let row = lemma_part_covers(height, rows as int, y) as u32;
        law_grid_cells_line_up(
            column,
            row,
            columns,
            rows,
            width,
            height,
            window_width,
            window_height,
        );
        assert(covers_point(
            cell(column, row, columns, rows),
            width,
            height,
            window_width,
            window_height,
            x,
            y,
        ));
    }
    assert forall|column: u32, row: u32|
        column < columns && row < rows && covers_point(
            #[trigger] cell(column, row, columns, rows),
            width,
            height,
            window_width,
            window_height,
            x,
            y,
        ) implies covers(width, x) && covers(height, y) by {
        law_grid_cells_line_up(
            column,
            row,
            columns,
            rows,
            width,
            height,
            window_width,
            window_height,
        );
        lemma_part_is_inside(width, column as int, columns as int);
        lemma_part_is_inside(height, row as int, rows as int);
    }
}

/// No two cells of a grid have a point between their sides in common.
pub proof fn law_grid_cells_are_apart(
    columns: u32,
    rows: u32,
    column: u32,
    row: u32,
    other_column: u32,
    other_row: u32,
    width: Extent,
    height: Extent,
    window_width: Extent,
    window_height: Extent,
    x: real,
    y: real,
)
    requires
        columns > 0,
        rows > 0,
        width.size > 0real,
        height.size > 0real,
        column != other_column || row != other_row,
    ensures
        !(covers_point_within(
            cell(column, row, columns, rows),
            width,
            height,
            window_width,
            window_height,
            x,
            y,
        ) && covers_point_within(
            cell(other_column, other_row, columns, rows),
            width,
            height,
            window_width,
            window_height,
            x,
            y,
        )),
{
    law_grid_cells_line_up(
        column,
        row,
        columns,
        rows,
        width,
        height,
        window_width,
        window_height,
    );
    law_grid_cells_line_up(
        other_column,
        other_row,
        columns,
        rows,
        width,
        height,
        window_width,
        window_height,
    );
    if column < other_column {
        lemma_parts_are_apart(width, column as int, other_column as int, columns as int, x);
    } else if other_column < column {
        lemma_parts_are_apart(width, other_column as int, column as int, columns as int, x);
    } else if row < other_row {
        lemma_parts_are_apart(height, row as int, other_row as int, rows as int, y);
    } else {
        lemma_parts_are_apart(height, other_row as int, row as int, rows as int, y);
    }
}

/// A block of whole cells starts where its first cell starts, and is as long as its cells
/// together.
pub proof fn law_block_is_as_long_as_its_cells(
    column: u32,
    row: u32,
    column_span: u32,
    row_span: u32,
    columns: u32,
    rows: u32,
    width: Extent,
    height: Extent,
    window_width: Extent,
    window_height: Extent,
)
    requires
        columns > 0,
        rows > 0,
    ensures
        placed(
            block((2 * column) as i64, (2 * row) as i64, column_span, row_span, columns, rows).horizontal,
            width,
            window_width,
        ) == (Extent {
            start: width.start + width.size * (column as real) / (columns as real),
            size: width.size * (column_span as real) / (columns as real),
        }),
        placed(
            block((2 * column) as i64, (2 * row) as i64, column_span, row_span, columns, rows).vertical,
            height,
            window_height,
        ) == (Extent {
            start: height.start + height.size * (row as real) / (rows as real),
            size: height.size * (row_span as real) / (rows as real),
        }),
{
    assert((2 * column) as real == 2real * (column as real));
    assert((2 * row) as real == 2real * (row as real));
    assert((2 * column_span) as real == 2real * (column_span as real));
    assert((2 * row_span) as real == 2real * (row_span as real));
    lemma_halved(width.size, column as real, columns as real);
    lemma_halved(width.size, column_span as real, columns as real);
    lemma_halved(height.size, row as real, rows as real);
    lemma_halved(height.size, row_span as real, rows as real);
}

} // verus!
