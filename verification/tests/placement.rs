use macos_window::action::{MacosWindowFrame, MacosWindowLayout, MacosWindowPreset};
use macos_window::placement::{
    center_current_window, grid_rect, move_current_window, resolve_frame, resolve_layout,
    resolve_preset, span_rect, AxisRule, MoveEdge, Placement, Slice, BASIS_POINTS,
};

fn slice(rule: AxisRule) -> Slice {
    match rule {
        AxisRule::Slice(slice) => slice,
        other => panic!("no slice: {:?}", other),
    }
}

/// Start and end along an axis of the given length.
fn along(rule: AxisRule, length: f64) -> (f64, f64) {
    let slice = slice(rule);
    let half = length / (2.0 * f64::from(slice.parts));
    let start = half * slice.start_halves as f64;
    (start, start + half * slice.extent_halves as f64)
}

/// Left, top, right and bottom in an area of 120 by 120.
fn sides(placement: Placement) -> (f64, f64, f64, f64) {
    let (left, right) = along(placement.horizontal, 120.0);
    let (top, bottom) = along(placement.vertical, 120.0);
    (left, top, right, bottom)
}

#[test]
fn presets_fill_their_region() {
    let expected = [
        (MacosWindowPreset::Maximize, (0, 0, 120, 120)),
        (MacosWindowPreset::LeftHalf, (0, 0, 60, 120)),
        (MacosWindowPreset::RightHalf, (60, 0, 120, 120)),
        (MacosWindowPreset::TopHalf, (0, 0, 120, 60)),
        (MacosWindowPreset::BottomHalf, (0, 60, 120, 120)),
        (MacosWindowPreset::FirstThird, (0, 0, 40, 120)),
        (MacosWindowPreset::CenterThird, (40, 0, 80, 120)),
        (MacosWindowPreset::LastThird, (80, 0, 120, 120)),
        (MacosWindowPreset::LeftTwoThirds, (0, 0, 80, 120)),
        (MacosWindowPreset::CenterTwoThirds, (20, 0, 100, 120)),
        (MacosWindowPreset::RightTwoThirds, (40, 0, 120, 120)),
        (MacosWindowPreset::FirstThreeFourths, (0, 0, 90, 120)),
        (MacosWindowPreset::CenterThreeFourths, (15, 0, 105, 120)),
        (MacosWindowPreset::LastThreeFourths, (30, 0, 120, 120)),
        (MacosWindowPreset::TopThird, (0, 0, 120, 40)),
        (MacosWindowPreset::MiddleThird, (0, 40, 120, 80)),
        (MacosWindowPreset::BottomThird, (0, 80, 120, 120)),
        (MacosWindowPreset::TopTwoThirds, (0, 0, 120, 80)),
        (MacosWindowPreset::BottomTwoThirds, (0, 40, 120, 120)),
        (MacosWindowPreset::TopCenterTwoThirds, (20, 0, 100, 60)),
        (MacosWindowPreset::BottomCenterTwoThirds, (20, 60, 100, 120)),
        (MacosWindowPreset::TopFirstFourth, (0, 0, 30, 60)),
        (MacosWindowPreset::TopSecondFourth, (30, 0, 60, 60)),
        (MacosWindowPreset::TopThirdFourth, (60, 0, 90, 60)),
        (MacosWindowPreset::TopLastFourth, (90, 0, 120, 60)),
        (MacosWindowPreset::TopThreeFourths, (0, 0, 120, 90)),
        (MacosWindowPreset::BottomThreeFourths, (0, 30, 120, 120)),
        (MacosWindowPreset::FirstFourth, (0, 0, 30, 120)),
        (MacosWindowPreset::SecondFourth, (30, 0, 60, 120)),
        (MacosWindowPreset::ThirdFourth, (60, 0, 90, 120)),
        (MacosWindowPreset::LastFourth, (90, 0, 120, 120)),
        (MacosWindowPreset::TopLeftQuarter, (0, 0, 60, 60)),
        (MacosWindowPreset::TopRightQuarter, (60, 0, 120, 60)),
        (MacosWindowPreset::BottomLeftQuarter, (0, 60, 60, 120)),
        (MacosWindowPreset::BottomRightQuarter, (60, 60, 120, 120)),
        (MacosWindowPreset::TopLeftSixth, (0, 0, 40, 60)),
        (MacosWindowPreset::TopCenterSixth, (40, 0, 80, 60)),
        (MacosWindowPreset::TopRightSixth, (80, 0, 120, 60)),
        (MacosWindowPreset::BottomLeftSixth, (0, 60, 40, 120)),
        (MacosWindowPreset::BottomCenterSixth, (40, 60, 80, 120)),
        (MacosWindowPreset::BottomRightSixth, (80, 60, 120, 120)),
        (MacosWindowPreset::AlmostMaximize, (6, 6, 114, 114)),
    ];
    for (preset, (left, top, right, bottom)) in expected {
        let found = sides(resolve_preset(preset));
        let wanted = (left as f64, top as f64, right as f64, bottom as f64);
        assert_eq!(found, wanted, "{:?}", preset);
        assert!(left >= 0 && top >= 0 && right <= 120 && bottom <= 120);
    }
}

#[test]
fn presets_that_depend_on_the_window() {
    let rule = |horizontal, vertical| Placement { horizontal, vertical };
    for (preset, placement) in [
        (MacosWindowPreset::Center, rule(AxisRule::Center, AxisRule::Center)),
        (MacosWindowPreset::MoveLeft, rule(AxisRule::Near, AxisRule::Keep)),
        (MacosWindowPreset::MoveRight, rule(AxisRule::Far, AxisRule::Keep)),
        (MacosWindowPreset::MoveTop, rule(AxisRule::Keep, AxisRule::Near)),
        (MacosWindowPreset::MoveBottom, rule(AxisRule::Keep, AxisRule::Far)),
    ] {
        assert_eq!(resolve_preset(preset), placement);
    }
    assert_eq!(center_current_window(), resolve_preset(MacosWindowPreset::Center));
    assert_eq!(move_current_window(MoveEdge::Top), resolve_preset(MacosWindowPreset::MoveTop));
}

#[test]
fn frames_are_in_basis_points() {
    let frame = MacosWindowFrame { x: -500, y: 250, width: 5000, height: i32::MAX };
    let placement = resolve_frame(frame);
    assert_eq!(
        slice(placement.horizontal),
        Slice { start_halves: -1000, extent_halves: 10000, parts: BASIS_POINTS }
    );
    assert_eq!(
        slice(placement.vertical),
        Slice { start_halves: 500, extent_halves: 4294967294, parts: 10000 }
    );
    assert_eq!(resolve_layout(MacosWindowLayout::Frame(frame)), placement);
    assert_eq!(
        resolve_layout(MacosWindowLayout::Preset(MacosWindowPreset::TopThird)),
        resolve_preset(MacosWindowPreset::TopThird)
    );
}

#[test]
fn grid_cells_tile_the_area() {
    for columns in 1..5u32 {
        for rows in 1..5u32 {
            for (x, y) in [(0.0, 0.0), (59.0, 61.0), (60.0, 60.0), (119.9, 0.1), (119.9, 119.9)] {
                let mut holders = 0;
                for column in 0..columns {
                    for row in 0..rows {
                        let (left, top, right, bottom) =
                            sides(grid_rect(column, row, columns, rows));
                        if left <= x && x < right && top <= y && y < bottom {
                            holders += 1;
                        }
                    }
                }
                assert_eq!(holders, 1);
            }
        }
    }
}

#[test]
fn blocks_are_made_of_cells() {
    let (left, top, _, _) = sides(grid_rect(1, 0, 4, 2));
    let (_, _, right, bottom) = sides(grid_rect(3, 1, 4, 2));
    assert_eq!(sides(span_rect(2, 0, 3, 2, 4, 2)), (left, top, right, bottom));
}

#[test]
fn spans_start_at_half_columns() {
    let placement = span_rect(1, 2, 2, 1, 3, 2);
    assert_eq!(
        placement,
        Placement {
            horizontal: AxisRule::Slice(Slice { start_halves: 1, extent_halves: 4, parts: 3 }),
            vertical: AxisRule::Slice(Slice { start_halves: 2, extent_halves: 2, parts: 2 }),
        }
    );
    assert_eq!(grid_rect(1, 1, 3, 2), span_rect(2, 2, 1, 1, 3, 2));
}

#[test]
fn cell_is_a_block_of_one() {
    for (column, row, columns, rows) in [
        (0, 0, 1, 1),
        (2, 1, 3, 2),
        (u32::MAX - 1, u32::MAX - 1, u32::MAX, u32::MAX),
    ] {
        assert_eq!(
            grid_rect(column, row, columns, rows),
            span_rect(2 * i64::from(column), 2 * i64::from(row), 1, 1, columns, rows)
        );
    }
}

#[test]
fn grid_cells_line_up() {
    for columns in [1, 2, 3, 4] {
        for rows in [1, 2, 3, 4] {
            let (width, height) = (120.0 / f64::from(columns), 120.0 / f64::from(rows));
            for column in 0..columns {
                for row in 0..rows {
                    let (left, top) = (width * f64::from(column), height * f64::from(row));
                    assert_eq!(
                        sides(grid_rect(column, row, columns, rows)),
                        (left, top, left + width, top + height)
                    );
                }
            }
        }
    }
}
