use macos_window::action::{MacosWindowFrame, MacosWindowLayout, MacosWindowPreset};
use macos_window::apply::next_placement;
use macos_window::cycle::{next_cycle_index, CycleKey, CycleState, CYCLE_RESET_AFTER};
use macos_window::placement::resolve_layout;

const KEY: CycleKey = CycleKey { layouts_ptr: 64, layouts_len: 3 };
const MILLISECOND: u128 = 1_000_000;

#[test]
fn quick_presses_go_round() {
    let mut state = CycleState::new(0);
    let indices: Vec<usize> = (0..8)
        .map(|press| next_cycle_index(&mut state, KEY, press * 100 * MILLISECOND))
        .collect();
    assert_eq!(indices, [0, 1, 2, 0, 1, 2, 0, 1]);
}

#[test]
fn late_press_starts_over() {
    assert_eq!(CYCLE_RESET_AFTER, 900 * MILLISECOND);
    let mut state = CycleState::new(0);
    assert_eq!(next_cycle_index(&mut state, KEY, 0), 0);
    assert_eq!(next_cycle_index(&mut state, KEY, 900 * MILLISECOND), 1);
    assert_eq!(next_cycle_index(&mut state, KEY, 1800 * MILLISECOND), 2);
    assert_eq!(next_cycle_index(&mut state, KEY, 2700 * MILLISECOND + 1), 0);
}

#[test]
fn other_key_starts_over() {
    let other = CycleKey { layouts_ptr: 128, layouts_len: 3 };
    let longer = CycleKey { layouts_ptr: 64, layouts_len: 4 };
    let mut state = CycleState::new(0);
    assert_eq!(next_cycle_index(&mut state, KEY, 1), 0);
    assert_eq!(next_cycle_index(&mut state, KEY, 2), 1);
    assert_eq!(next_cycle_index(&mut state, other, 3), 0);
    assert_eq!(next_cycle_index(&mut state, KEY, 4), 0);
    assert_eq!(next_cycle_index(&mut state, longer, 5), 0);
    assert_eq!(next_cycle_index(&mut state, longer, 6), 1);
}

#[test]
fn first_press_uses_the_first_layout() {
    let mut state = CycleState::new(50);
    assert_eq!(next_cycle_index(&mut state, KEY, 50), 0);
}

#[test]
fn clock_that_goes_back_is_no_wait() {
    let mut state = CycleState::new(0);
    assert_eq!(next_cycle_index(&mut state, KEY, 5000 * MILLISECOND), 0);
    assert_eq!(next_cycle_index(&mut state, KEY, 0), 1);
}

#[test]
fn single_layout_stays() {
    let key = CycleKey { layouts_ptr: 64, layouts_len: 1 };
    let mut state = CycleState::new(0);
    for press in 0..4 {
        assert_eq!(next_cycle_index(&mut state, key, press), 0);
    }
}

#[test]
fn layouts_are_placed_in_turn() {
    let layouts = [
        MacosWindowLayout::Preset(MacosWindowPreset::LeftHalf),
        MacosWindowLayout::Frame(MacosWindowFrame { x: 1, y: 2, width: 3, height: 4 }),
    ];
    let mut state = CycleState::new(0);
    for press in 0..5u128 {
        assert_eq!(
            next_placement(&mut state, &layouts, 64, press),
            resolve_layout(layouts[(press % 2) as usize])
        );
    }
}

#[test]
fn cycle_without_layouts_can_be_started() {
    let none = CycleKey { layouts_ptr: 64, layouts_len: 0 };
    let mut state = CycleState::new(0);
    assert_eq!(next_cycle_index(&mut state, none, 1), 0);
    assert_eq!(next_cycle_index(&mut state, none, 901 * MILLISECOND + 2), 0);
    assert_eq!(next_cycle_index(&mut state, KEY, 901 * MILLISECOND + 3), 0);
}
