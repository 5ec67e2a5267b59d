//! Where a layout puts the window, as exact fractions of the work area.

use vstd::prelude::*;

use crate::action::{MacosWindowFrame, MacosWindowLayout, MacosWindowPreset};

verus! {

/// The number of basis points in the whole.
pub const BASIS_POINTS: u32 = 10_000;

/// A stretch along one axis of the work area. The axis is cut into `parts` equal parts;
/// where the stretch starts and how long it is, is counted in halves of a part.
#[derive(Clone, Copy, Debug, PartialEq, Eq, Structural)]
pub struct Slice {
    pub start_halves: i64,
    pub extent_halves: i64,
    pub parts: u32,
}

/// How the window is placed along one axis of the work area.
///
/// All rules but `Slice` keep the size of the window, cut down to that of the work area.
#[derive(Clone, Copy, Debug, PartialEq, Eq, Structural)]
pub enum AxisRule {
    /// The window takes up this stretch.
    Slice(Slice),
    /// The window is centered.
    Center,
    /// The window touches the start of the work area: its left or its top.
    Near,
    /// The window touches the end of the work area: its right or its bottom.
    Far,
    /// The window stays where it is, moved by no more than it takes to be inside.
    Keep,
}

/// How the window is placed on a screen.
#[derive(Clone, Copy, Debug, PartialEq, Eq, Structural)]
pub struct Placement {
    pub horizontal: AxisRule,
    pub vertical: AxisRule,
}

/// The side of the work area that a window is moved to.
#[derive(Clone, Copy, Debug, PartialEq, Eq, Structural)]
pub enum MoveEdge {
    Left,
    Right,
    Top,
    Bottom,
}

/// The block of a grid of `columns` by `rows` that starts `column_halves` halves of a
/// column from the left and `row_halves` halves of a row from the top.
pub open spec fn block(
    column_halves: i64,
    row_halves: i64,
    column_span: u32,
    row_span: u32,
    columns: u32,
    rows: u32,
) -> Placement {
    Placement {
        horizontal: AxisRule::Slice(
            Slice {
                start_halves: column_halves,
                extent_halves: (2 * column_span) as i64,
                parts: columns,
            },
        ),
        vertical: AxisRule::Slice(
            Slice {
                start_halves: row_halves,
                extent_halves: (2 * row_span) as i64,
                parts: rows,
            },
        ),
    }
}

/// One cell of a grid of `columns` by `rows`.
pub open spec fn cell(column: u32, row: u32, columns: u32, rows: u32) -> Placement {
    Placement {
        horizontal: AxisRule::Slice(
            Slice { start_halves: (2 * column) as i64, extent_halves: 2, parts: columns },
        ),
        vertical: AxisRule::Slice(
            Slice { start_halves: (2 * row) as i64, extent_halves: 2, parts: rows },
        ),
    }
}

/// The stretch from `start` on that is `extent` long, in basis points.
pub open spec fn basis_point_slice(start: i32, extent: i32) -> Slice {
    Slice {
        start_halves: (2 * start) as i64,
        extent_halves: (2 * extent) as i64,
        parts: BASIS_POINTS,
    }
}

/// The rectangle of a frame.
pub open spec fn frame_placement(frame: MacosWindowFrame) -> Placement {
    Placement {
        horizontal: AxisRule::Slice(basis_point_slice(frame.x, frame.width)),
        vertical: AxisRule::Slice(basis_point_slice(frame.y, frame.height)),
    }
}

/// The window in the middle of the work area.
pub open spec fn centered() -> Placement {
    Placement { horizontal: AxisRule::Center, vertical: AxisRule::Center }
}

/// The window at one side of the work area. Along the other axis it stays.
pub open spec fn moved(edge: MoveEdge) -> Placement {
    Placement {
        horizontal: match edge {
            MoveEdge::Left => AxisRule::Near,
            MoveEdge::Right => AxisRule::Far,
            _ => AxisRule::Keep,
        },
        vertical: match edge {
            MoveEdge::Top => AxisRule::Near,
            MoveEdge::Bottom => AxisRule::Far,
            _ => AxisRule::Keep,
        },
    }
}

/// Where a preset puts the window.
pub open spec fn preset_placement(preset: MacosWindowPreset) -> Placement {
    match preset {
        MacosWindowPreset::Maximize => cell(0, 0, 1, 1),
        MacosWindowPreset::AlmostMaximize => frame_placement(
            MacosWindowFrame { x: 500, y: 500, width: 9_000, height: 9_000 },
        ),
        MacosWindowPreset::LeftHalf => cell(0, 0, 2, 1),
        MacosWindowPreset::RightHalf => cell(1, 0, 2, 1),
        MacosWindowPreset::TopHalf => cell(0, 0, 1, 2),
        MacosWindowPreset::BottomHalf => cell(0, 1, 1, 2),
        MacosWindowPreset::Center => centered(),
        MacosWindowPreset::FirstThird => cell(0, 0, 3, 1),
        MacosWindowPreset::CenterThird => cell(1, 0, 3, 1),
        MacosWindowPreset::LastThird => cell(2, 0, 3, 1),
        MacosWindowPreset::LeftTwoThirds => block(0, 0, 2, 1, 3, 1),
        MacosWindowPreset::CenterTwoThirds => block(1, 0, 2, 1, 3, 1),
        MacosWindowPreset::RightTwoThirds => block(2, 0, 2, 1, 3, 1),
        MacosWindowPreset::FirstThreeFourths => block(0, 0, 3, 1, 4, 1),
        MacosWindowPreset::CenterThreeFourths => block(1, 0, 3, 1, 4, 1),
        MacosWindowPreset::LastThreeFourths => block(2, 0, 3, 1, 4, 1),
        MacosWindowPreset::TopThird => cell(0, 0, 1, 3),
        MacosWindowPreset::MiddleThird => cell(0, 1, 1, 3),
        MacosWindowPreset::BottomThird => cell(0, 2, 1, 3),
        MacosWindowPreset::TopTwoThirds => block(0, 0, 1, 2, 1, 3),
        MacosWindowPreset::BottomTwoThirds => block(0, 2, 1, 2, 1, 3),
        MacosWindowPreset::TopCenterTwoThirds => block(1, 0, 2, 1, 3, 2),
        MacosWindowPreset::BottomCenterTwoThirds => block(1, 2, 2, 1, 3, 2),
        MacosWindowPreset::TopFirstFourth => block(0, 0, 1, 1, 4, 2),
        MacosWindowPreset::TopSecondFourth => block(2, 0, 1, 1, 4, 2),
        MacosWindowPreset::TopThirdFourth => block(4, 0, 1, 1, 4, 2),
        MacosWindowPreset::TopLastFourth => block(6, 0, 1, 1, 4, 2),
        MacosWindowPreset::TopThreeFourths => block(0, 0, 1, 3, 1, 4),
        MacosWindowPreset::BottomThreeFourths => block(0, 2, 1, 3, 1, 4),
        MacosWindowPreset::FirstFourth => cell(0, 0, 4, 1),
        MacosWindowPreset::SecondFourth => cell(1, 0, 4, 1),
        MacosWindowPreset::ThirdFourth => cell(2, 0, 4, 1),
        MacosWindowPreset::LastFourth => cell(3, 0, 4, 1),
        MacosWindowPreset::TopLeftQuarter => cell(0, 0, 2, 2),
        MacosWindowPreset::TopRightQuarter => cell(1, 0, 2, 2),
        MacosWindowPreset::BottomLeftQuarter => cell(0, 1, 2, 2),
        MacosWindowPreset::BottomRightQuarter => cell(1, 1, 2, 2),
        MacosWindowPreset::TopLeftSixth => cell(0, 0, 3, 2),
        MacosWindowPreset::TopCenterSixth => cell(1, 0, 3, 2),
        MacosWindowPreset::TopRightSixth => cell(2, 0, 3, 2),
        MacosWindowPreset::BottomLeftSixth => cell(0, 1, 3, 2),
        MacosWindowPreset::BottomCenterSixth => cell(1, 1, 3, 2),
        MacosWindowPreset::BottomRightSixth => cell(2, 1, 3, 2),
        MacosWindowPreset::MoveLeft => moved(MoveEdge::Left),
        MacosWindowPreset::MoveRight => moved(MoveEdge::Right),
        MacosWindowPreset::MoveTop => moved(MoveEdge::Top),
        MacosWindowPreset::MoveBottom => moved(MoveEdge::Bottom),
    }
}

/// Where a layout puts the window.
pub open spec fn layout_placement(layout: MacosWindowLayout) -> Placement {
    match layout {
        MacosWindowLayout::Frame(frame) => frame_placement(frame),
        MacosWindowLayout::Preset(preset) => preset_placement(preset),
    }
}

/// A rectangle by its four sides, in 120ths of the width and height of the work area.
pub struct Region {
    pub left: int,
    pub top: int,
    pub right: int,
    pub bottom: int,
}

/// The region with the given sides.
pub open spec fn region(left: int, top: int, right: int, bottom: int) -> Region {
    Region { left, top, right, bottom }
}

/// The part of the work area that a preset fills; `None` where that depends on the window.
pub open spec fn preset_region(preset: MacosWindowPreset) -> Option<Region> {
    match preset {
        MacosWindowPreset::Maximize => Some(region(0, 0, 120, 120)),
        MacosWindowPreset::AlmostMaximize => Some(region(6, 6, 114, 114)),
        MacosWindowPreset::LeftHalf => Some(region(0, 0, 60, 120)),
        MacosWindowPreset::RightHalf => Some(region(60, 0, 120, 120)),
        MacosWindowPreset::TopHalf => Some(region(0, 0, 120, 60)),
        MacosWindowPreset::BottomHalf => Some(region(0, 60, 120, 120)),
        MacosWindowPreset::Center => None,
        MacosWindowPreset::FirstThird => Some(region(0, 0, 40, 120)),
        MacosWindowPreset::CenterThird => Some(region(40, 0, 80, 120)),
        MacosWindowPreset::LastThird => Some(region(80, 0, 120, 120)),
        MacosWindowPreset::LeftTwoThirds => Some(region(0, 0, 80, 120)),
        MacosWindowPreset::CenterTwoThirds => Some(region(20, 0, 100, 120)),
        MacosWindowPreset::RightTwoThirds => Some(region(40, 0, 120, 120)),
        MacosWindowPreset::FirstThreeFourths => Some(region(0, 0, 90, 120)),
        MacosWindowPreset::CenterThreeFourths => Some(region(15, 0, 105, 120)),
        MacosWindowPreset::LastThreeFourths => Some(region(30, 0, 120, 120)),
        MacosWindowPreset::TopThird => Some(region(0, 0, 120, 40)),
        MacosWindowPreset::MiddleThird => Some(region(0, 40, 120, 80)),
        MacosWindowPreset::BottomThird => Some(region(0, 80, 120, 120)),
        MacosWindowPreset::TopTwoThirds => Some(region(0, 0, 120, 80)),
        MacosWindowPreset::BottomTwoThirds => Some(region(0, 40, 120, 120)),
        MacosWindowPreset::TopCenterTwoThirds => Some(region(20, 0, 100, 60)),
        MacosWindowPreset::BottomCenterTwoThirds => Some(region(20, 60, 100, 120)),
        MacosWindowPreset::TopFirstFourth => Some(region(0, 0, 30, 60)),
        MacosWindowPreset::TopSecondFourth => Some(region(30, 0, 60, 60)),
        MacosWindowPreset::TopThirdFourth => Some(region(60, 0, 90, 60)),
        MacosWindowPreset::TopLastFourth => Some(region(90, 0, 120, 60)),
        MacosWindowPreset::TopThreeFourths => Some(region(0, 0, 120, 90)),
        MacosWindowPreset::BottomThreeFourths => Some(region(0, 30, 120, 120)),
        MacosWindowPreset::FirstFourth => Some(region(0, 0, 30, 120)),
        MacosWindowPreset::SecondFourth => Some(region(30, 0, 60, 120)),
        MacosWindowPreset::ThirdFourth => Some(region(60, 0, 90, 120)),
        MacosWindowPreset::LastFourth => Some(region(90, 0, 120, 120)),
        MacosWindowPreset::TopLeftQuarter => Some(region(0, 0, 60, 60)),
        MacosWindowPreset::TopRightQuarter => Some(region(60, 0, 120, 60)),
        MacosWindowPreset::BottomLeftQuarter => Some(region(0, 60, 60, 120)),
        MacosWindowPreset::BottomRightQuarter => Some(region(60, 60, 120, 120)),
        MacosWindowPreset::TopLeftSixth => Some(region(0, 0, 40, 60)),
        MacosWindowPreset::TopCenterSixth => Some(region(40, 0, 80, 60)),
        MacosWindowPreset::TopRightSixth => Some(region(80, 0, 120, 60)),
        MacosWindowPreset::BottomLeftSixth => Some(region(0, 60, 40, 120)),
        MacosWindowPreset::BottomCenterSixth => Some(region(40, 60, 80, 120)),
        MacosWindowPreset::BottomRightSixth => Some(region(80, 60, 120, 120)),
        MacosWindowPreset::MoveLeft => None,
        MacosWindowPreset::MoveRight => None,
        MacosWindowPreset::MoveTop => None,
        MacosWindowPreset::MoveBottom => None,
    }
}

/// Whether a rule fills the stretch between two 120ths of the axis.
pub open spec fn fills(rule: AxisRule, from: int, to: int) -> bool {
    match rule {
        AxisRule::Slice(slice) => {
            &&& slice.parts > 0
            &&& 60 * slice.start_halves == from * slice.parts
            &&& 60 * (slice.start_halves + slice.extent_halves) == to * slice.parts
        },
        _ => false,
    }
}

/// Whether a stretch holds the point at `p / q` of the axis. The start of a stretch
/// belongs to it, its end does not.
pub open spec fn slice_holds(slice: Slice, p: int, q: int) -> bool {
    &&& slice.start_halves * q <= 2 * (slice.parts * p)
    &&& 2 * (slice.parts * p) < (slice.start_halves + slice.extent_halves) * q
}

/// Whether a placement by two stretches holds the point at `px / qx` of the width and
/// `py / qy` of the height.
pub open spec fn holds(placement: Placement, px: int, qx: int, py: int, qy: int) -> bool {
    match (placement.horizontal, placement.vertical) {
        (AxisRule::Slice(horizontal), AxisRule::Slice(vertical)) => {
            &&& slice_holds(horizontal, px, qx)
            &&& slice_holds(vertical, py, qy)
        },
        _ => false,
    }
}

/// Products with the numbers of parts that presets cut an axis into.
proof fn lemma_times_parts(x: int, parts: int)
    by (nonlinear_arith)
    ensures
        parts == 1 ==> x * parts == x,
        parts == 2 ==> x * parts == 2 * x,
        parts == 3 ==> x * parts == 3 * x,
        parts == 4 ==> x * parts == 4 * x,
        parts == BASIS_POINTS ==> x * parts == 10_000 * x,
{
}

/// A preset whose place does not depend on the window fills its region, and that lies
/// inside the work area.
pub proof fn law_presets_fill_their_region(preset: MacosWindowPreset)
    ensures
        match preset_region(preset) {
            Some(r) => {
                &&& fills(preset_placement(preset).horizontal, r.left, r.right)
                &&& fills(preset_placement(preset).vertical, r.top, r.bottom)
                &&& 0 <= r.left < r.right <= 120
                &&& 0 <= r.top < r.bottom <= 120
            },
            None => {
                &&& !(preset_placement(preset).horizontal is Slice)
                &&& !(preset_placement(preset).vertical is Slice)
            },
        },
{
    if let Some(r) = preset_region(preset) {
        let horizontal = preset_placement(preset).horizontal->Slice_0.parts as int;
        let vertical = preset_placement(preset).vertical->Slice_0.parts as int;
        lemma_times_parts(r.left, horizontal);
        lemma_times_parts(r.right, horizontal);
        lemma_times_parts(r.top, vertical);
        lemma_times_parts(r.bottom, vertical);
    }
}

/// A cell `c` of `n` along one axis holds `p / q` exactly where `c` is `p * n / q`.
proof fn lemma_cell_of_point(c: int, n: int, p: int, q: int)
    requires
        q > 0,
    ensures
        ((2 * c) * q <= 2 * (n * p) && 2 * (n * p) < (2 * c + 2) * q) <==> c == (n * p) / q,
{
    let m = n * p;
    assert(((2 * c) * q <= 2 * m && 2 * m < (2 * c + 2) * q) <==> (c * q <= m && m < (c + 1) * q))
        by (nonlinear_arith);
    assert((c * q <= m && m < (c + 1) * q) <==> c == m / q) by (nonlinear_arith)
        requires
            q > 0,
    ;
}

/// A point inside the work area lies in a cell of the grid.
proof fn lemma_cell_in_grid(n: int, p: int, q: int)
    requires
        n > 0,
        0 <= p < q,
    ensures
        0 <= (n * p) / q < n,
{
    assert(0 <= (n * p) / q < n) by (nonlinear_arith)
        requires
            n > 0,
            0 <= p < q,
    ;
}

/// A cell of a grid is the block of one by one.
pub proof fn law_cell_is_a_block_of_one(column: u32, row: u32, columns: u32, rows: u32)
    ensures
        cell(column, row, columns, rows) == block(
            (2 * column) as i64,
            (2 * row) as i64,
            1,
            1,
            columns,
            rows,
        ),
{
}

/// A block counts its start in the halves that it is given and its length in whole parts,
/// of as many parts as the grid has.
pub proof fn law_block_counts_halves(
    column_halves: i64,
    row_halves: i64,
    column_span: u32,
    row_span: u32,
    columns: u32,
    rows: u32,
)
    ensures
        ({
            let placement = block(column_halves, row_halves, column_span, row_span, columns, rows);
            &&& placement.horizontal matches AxisRule::Slice(slice) && {
                &&& slice.parts == columns
                &&& slice.start_halves == column_halves
                &&& slice.extent_halves == column_span + column_span
            }
            &&& placement.vertical matches AxisRule::Slice(slice) && {
                &&& slice.parts == rows
                &&& slice.start_halves == row_halves
                &&& slice.extent_halves == row_span + row_span
            }
        }),
{
}

/// The stretches of a frame start at its own numbers and are as long as these say, counted
/// in parts of which the whole has ten thousand.
pub proof fn law_frame_counts_basis_points(frame: MacosWindowFrame)
    ensures
        frame_placement(frame).horizontal matches AxisRule::Slice(slice) && {
            &&& slice.parts == 10_000
            &&& slice.start_halves == frame.x + frame.x
            &&& slice.extent_halves == frame.width + frame.width
        },
        frame_placement(frame).vertical matches AxisRule::Slice(slice) && {
            &&& slice.parts == 10_000
            &&& slice.start_halves == frame.y + frame.y
            &&& slice.extent_halves == frame.height + frame.height
        },
        layout_placement(MacosWindowLayout::Frame(frame)) == frame_placement(frame),
{
}

/// A preset puts the window in the same place when it is one of several layouts.
pub proof fn law_layout_of_a_preset(preset: MacosWindowPreset)
    ensures
        layout_placement(MacosWindowLayout::Preset(preset)) == preset_placement(preset),
        match preset_region(preset) {
            Some(r) => {
                let placement = layout_placement(MacosWindowLayout::Preset(preset));
                &&& fills(placement.horizontal, r.left, r.right)
                &&& fills(placement.vertical, r.top, r.bottom)
            },
            None => true,
        },
{
    law_presets_fill_their_region(preset);
}

/// Moving to one side pins that side and keeps the place along the other axis; moving to
/// the opposite side pins the opposite end of the same axis.
pub proof fn law_moves_pin_one_side(edge: MoveEdge)
    ensures
        edge is Left ==> moved(edge).horizontal is Near && moved(edge).vertical is Keep,
        edge is Right ==> moved(edge).horizontal is Far && moved(edge).vertical is Keep,
        edge is Top ==> moved(edge).horizontal is Keep && moved(edge).vertical is Near,
        edge is Bottom ==> moved(edge).horizontal is Keep && moved(edge).vertical is Far,
        centered().horizontal is Center && centered().vertical is Center,
{
}

/// Every point of the work area lies in a cell of the grid: the cells leave no gap.
pub proof fn law_grid_leaves_no_gap(columns: u32, rows: u32, px: int, qx: int, py: int, qy: int)
    requires
        columns > 0,
        rows > 0,
        0 <= px < qx,
        0 <= py < qy,
    ensures
        exists|column: u32, row: u32|
            column < columns && row < rows && holds(
                #[trigger] cell(column, row, columns, rows),
                px,
                qx,
                py,
                qy,
            ),
{
    lemma_cell_in_grid(columns as int, px, qx);
    lemma_cell_in_grid(rows as int, py, qy);
    let column = ((columns * px) / qx) as u32;
    let row = ((rows * py) / qy) as u32;
    lemma_cell_of_point(column as int, columns as int, px, qx);
    lemma_cell_of_point(row as int, rows as int, py, qy);
    assert(holds(cell(column, row, columns, rows), px, qx, py, qy));
}

/// No point lies in two cells of a grid: the cells do not overlap.
pub proof fn law_grid_cells_do_not_overlap(
    columns: u32,
    rows: u32,
    column: u32,
    row: u32,
    other_column: u32,
    other_row: u32,
    px: int,
    qx: int,
    py: int,
    qy: int,
)
    requires
        qx > 0,
        qy > 0,
        holds(cell(column, row, columns, rows), px, qx, py, qy),
        holds(cell(other_column, other_row, columns, rows), px, qx, py, qy),
    ensures
        column == other_column,
        row == other_row,
{
    lemma_cell_of_point(column as int, columns as int, px, qx);
    lemma_cell_of_point(other_column as int, columns as int, px, qx);
    lemma_cell_of_point(row as int, rows as int, py, qy);
    lemma_cell_of_point(other_row as int, rows as int, py, qy);
}

/// Along one axis, `span` cells from `c` on hold what the cells between hold.
proof fn lemma_span_of_cells(c: int, span: int, n: int, p: int, q: int)
    requires
        q > 0,
    ensures
        ((2 * c) * q <= 2 * (n * p) && 2 * (n * p) < (2 * c + 2 * span) * q) <==> c <= (n * p) / q
            < c + span,
{
    let m = n * p;
    assert(((2 * c) * q <= 2 * m && 2 * m < (2 * c + 2 * span) * q) <==> (c * q <= m && m < (c
        + span) * q)) by (nonlinear_arith);
    let d = c + span;
    assert(c * q <= m <==> c <= m / q) by (nonlinear_arith)
        requires
            q > 0,
    ;
    assert(m < d * q <==> m / q < d) by (nonlinear_arith)
        requires
            q > 0,
    ;
}

/// A block of whole cells is made of these cells: it holds a point exactly where one of
/// them does.
pub proof fn law_block_is_made_of_cells(
    column: u32,
    row: u32,
    column_span: u32,
    row_span: u32,
    columns: u32,
    rows: u32,
    px: int,
    qx: int,
    py: int,
    qy: int,
)
    requires
        column + column_span <= columns,
        row + row_span <= rows,
        qx > 0,
        qy > 0,
    ensures
        holds(
            block((2 * column) as i64, (2 * row) as i64, column_span, row_span, columns, rows),
            px,
            qx,
            py,
            qy,
        ) <==> exists|c: u32, r: u32|
            column <= c < column + column_span && row <= r < row + row_span && holds(
                #[trigger] cell(c, r, columns, rows),
                px,
                qx,
                py,
                qy,
            ),
{
    let whole = block((2 * column) as i64, (2 * row) as i64, column_span, row_span, columns, rows);
    lemma_span_of_cells(column as int, column_span as int, columns as int, px, qx);
    lemma_span_of_cells(row as int, row_span as int, rows as int, py, qy);
    if holds(whole, px, qx, py, qy) {
        let c = ((columns * px) / qx) as u32;
        let r = ((rows * py) / qy) as u32;
        lemma_cell_of_point(c as int, columns as int, px, qx);
        lemma_cell_of_point(r as int, rows as int, py, qy);
        assert(holds(cell(c, r, columns, rows), px, qx, py, qy));
    }
    assert forall|c: u32, r: u32|
        column <= c < column + column_span && row <= r < row + row_span && holds(
            #[trigger] cell(c, r, columns, rows),
            px,
            qx,
            py,
            qy,
        ) implies holds(whole, px, qx, py, qy) by {
        lemma_cell_of_point(c as int, columns as int, px, qx);
        lemma_cell_of_point(r as int, rows as int, py, qy);
    }
}

/// The block of a grid that starts at the given halves of a column and of a row.
pub fn span_rect(
    column_halves: i64,
    row_halves: i64,
    column_span: u32,
    row_span: u32,
    columns: u32,
    rows: u32,
) -> (placement: Placement)
    ensures
        placement == block(column_halves, row_halves, column_span, row_span, columns, rows),
{
    Placement {
        horizontal: AxisRule::Slice(
            Slice {
                start_halves: column_halves,
                extent_halves: 2 * (column_span as i64),
                parts: columns,
            },
        ),
        vertical: AxisRule::Slice(
            Slice {
                start_halves: row_halves,
                extent_halves: 2 * (row_span as i64),
                parts: rows,
            },
        ),
    }
}

/// One cell of a grid.
pub fn grid_rect(column: u32, row: u32, columns: u32, rows: u32) -> (placement: Placement)
    ensures
        placement == cell(column, row, columns, rows),
{
    Placement {
        horizontal: AxisRule::Slice(
            Slice { start_halves: 2 * (column as i64), extent_halves: 2, parts: columns },
        ),
        vertical: AxisRule::Slice(
            Slice { start_halves: 2 * (row as i64), extent_halves: 2, parts: rows },
        ),
    }
}

/// The rectangle of a frame.
pub fn resolve_frame(frame: MacosWindowFrame) -> (placement: Placement)
    ensures
        placement == frame_placement(frame),
{
    Placement {
        horizontal: AxisRule::Slice(
            Slice {
                start_halves: 2 * (frame.x as i64),
                extent_halves: 2 * (frame.width as i64),
                parts: BASIS_POINTS,
            },
        ),
        vertical: AxisRule::Slice(
            Slice {
                start_halves: 2 * (frame.y as i64),
                extent_halves: 2 * (frame.height as i64),
                parts: BASIS_POINTS,
            },
        ),
    }
}

/// The window in the middle of the work area.
pub fn center_current_window() -> (placement: Placement)
    ensures
        placement == centered(),
{
    Placement { horizontal: AxisRule::Center, vertical: AxisRule::Center }
}

/// The window at one side of the work area.
pub fn move_current_window(edge: MoveEdge) -> (placement: Placement)
    ensures
        placement == moved(edge),
{
    let horizontal = match edge {
        MoveEdge::Left => AxisRule::Near,
        MoveEdge::Right => AxisRule::Far,
        MoveEdge::Top | MoveEdge::Bottom => AxisRule::Keep,
    };
    let vertical = match edge {
        MoveEdge::Top => AxisRule::Near,
        MoveEdge::Bottom => AxisRule::Far,
        MoveEdge::Left | MoveEdge::Right => AxisRule::Keep,
    };
    Placement { horizontal, vertical }
}

/// Where a preset puts the window.
pub fn resolve_preset(preset: MacosWindowPreset) -> (placement: Placement)
    ensures
        placement == preset_placement(preset),
{
    match preset {
        MacosWindowPreset::Maximize => grid_rect(0, 0, 1, 1),
        MacosWindowPreset::AlmostMaximize => resolve_frame(
            MacosWindowFrame { x: 500, y: 500, width: 9_000, height: 9_000 },
        ),
        MacosWindowPreset::LeftHalf => grid_rect(0, 0, 2, 1),
        MacosWindowPreset::RightHalf => grid_rect(1, 0, 2, 1),
        MacosWindowPreset::TopHalf => grid_rect(0, 0, 1, 2),
        MacosWindowPreset::BottomHalf => grid_rect(0, 1, 1, 2),
        MacosWindowPreset::Center => center_current_window(),
        MacosWindowPreset::FirstThird => grid_rect(0, 0, 3, 1),
        MacosWindowPreset::CenterThird => grid_rect(1, 0, 3, 1),
        MacosWindowPreset::LastThird => grid_rect(2, 0, 3, 1),
        MacosWindowPreset::LeftTwoThirds => span_rect(0, 0, 2, 1, 3, 1),
        MacosWindowPreset::CenterTwoThirds => span_rect(1, 0, 2, 1, 3, 1),
        MacosWindowPreset::RightTwoThirds => span_rect(2, 0, 2, 1, 3, 1),
        MacosWindowPreset::FirstThreeFourths => span_rect(0, 0, 3, 1, 4, 1),
        MacosWindowPreset::CenterThreeFourths => span_rect(1, 0, 3, 1, 4, 1),
        MacosWindowPreset::LastThreeFourths => span_rect(2, 0, 3, 1, 4, 1),
        MacosWindowPreset::TopThird => grid_rect(0, 0, 1, 3),
        MacosWindowPreset::MiddleThird => grid_rect(0, 1, 1, 3),
        MacosWindowPreset::BottomThird => grid_rect(0, 2, 1, 3),
        MacosWindowPreset::TopTwoThirds => span_rect(0, 0, 1, 2, 1, 3),
        MacosWindowPreset::BottomTwoThirds => span_rect(0, 2, 1, 2, 1, 3),
        MacosWindowPreset::TopCenterTwoThirds => span_rect(1, 0, 2, 1, 3, 2),
        MacosWindowPreset::BottomCenterTwoThirds => span_rect(1, 2, 2, 1, 3, 2),
        MacosWindowPreset::TopFirstFourth => span_rect(0, 0, 1, 1, 4, 2),
        MacosWindowPreset::TopSecondFourth => span_rect(2, 0, 1, 1, 4, 2),
        MacosWindowPreset::TopThirdFourth => span_rect(4, 0, 1, 1, 4, 2),
        MacosWindowPreset::TopLastFourth => span_rect(6, 0, 1, 1, 4, 2),
        MacosWindowPreset::TopThreeFourths => span_rect(0, 0, 1, 3, 1, 4),
        MacosWindowPreset::BottomThreeFourths => span_rect(0, 2, 1, 3, 1, 4),
        MacosWindowPreset::FirstFourth => grid_rect(0, 0, 4, 1),
        MacosWindowPreset::SecondFourth => grid_rect(1, 0, 4, 1),
        MacosWindowPreset::ThirdFourth => grid_rect(2, 0, 4, 1),
        MacosWindowPreset::LastFourth => grid_rect(3, 0, 4, 1),
        MacosWindowPreset::TopLeftQuarter => grid_rect(0, 0, 2, 2),
        MacosWindowPreset::TopRightQuarter => grid_rect(1, 0, 2, 2),
        MacosWindowPreset::BottomLeftQuarter => grid_rect(0, 1, 2, 2),
        MacosWindowPreset::BottomRightQuarter => grid_rect(1, 1, 2, 2),
        MacosWindowPreset::TopLeftSixth => grid_rect(0, 0, 3, 2),
        MacosWindowPreset::TopCenterSixth => grid_rect(1, 0, 3, 2),
        MacosWindowPreset::TopRightSixth => grid_rect(2, 0, 3, 2),
        MacosWindowPreset::BottomLeftSixth => grid_rect(0, 1, 3, 2),
        MacosWindowPreset::BottomCenterSixth => grid_rect(1, 1, 3, 2),
        MacosWindowPreset::BottomRightSixth => grid_rect(2, 1, 3, 2),
        MacosWindowPreset::MoveLeft => move_current_window(MoveEdge::Left),
        MacosWindowPreset::MoveRight => move_current_window(MoveEdge::Right),
        MacosWindowPreset::MoveTop => move_current_window(MoveEdge::Top),
        MacosWindowPreset::MoveBottom => move_current_window(MoveEdge::Bottom),
    }
}

/// Where a layout puts the window.
pub fn resolve_layout(layout: MacosWindowLayout) -> (placement: Placement)
    ensures
        placement == layout_placement(layout),
{
    match layout {
        MacosWindowLayout::Frame(frame) => resolve_frame(frame),
        MacosWindowLayout::Preset(preset) => resolve_preset(preset),
    }
}

} // verus!
