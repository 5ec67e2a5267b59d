use macos_window::action::{MacosWindowLayout, MacosWindowPreset};
use macos_window::apply::{apply_window_layouts, next_step, Progress, Reply, Step};
use macos_window::error::{Attribute, WindowError};

const LAYOUTS: [MacosWindowLayout; 1] = [MacosWindowLayout::Preset(MacosWindowPreset::Center)];

/// The steps that are taken when those named in `failing` fail and the questions are
/// answered as given, and how it ends.
fn run(failing: &[Step], screens: bool, near: bool) -> (Vec<Step>, Result<(), WindowError>) {
    let mut steps = Vec::new();
    let mut progress = apply_window_layouts(&LAYOUTS);
    loop {
        match progress {
            Progress::Next(step) => {
                steps.push(step);
                let reply: Reply = if failing.contains(&step) {
                    Err(failure(step))
                } else if step == Step::VisibleScreens {
                    Ok(screens)
                } else if step == Step::CheckSize {
                    Ok(near)
                } else {
                    Ok(steps.len() % 2 == 0)
                };
                progress = next_step(step, reply);
            }
            Progress::Finished(result) => return (steps, result),
        }
    }
}

/// An error that tells which step failed.
fn failure(step: Step) -> WindowError {
    WindowError::CopyAttribute(Attribute::Size, step as i32)
}

#[test]
fn action_without_layouts_is_refused() {
    assert_eq!(
        apply_window_layouts(&[]),
        Progress::Finished(Err(WindowError::NoLayouts))
    );
    assert_eq!(apply_window_layouts(&LAYOUTS), Progress::Next(Step::FocusedApplication));
}

#[test]
fn steps_when_all_goes_well() {
    assert_eq!(
        run(&[], true, true),
        (
            vec![
                Step::FocusedApplication,
                Step::FocusedWindow,
                Step::Position,
                Step::Size,
                Step::VisibleScreens,
                Step::Place,
                Step::SetSize,
                Step::SetPosition,
                Step::CheckPosition,
                Step::CheckSize,
            ],
            Ok(())
        )
    );
}

#[test]
fn steps_when_others_stand_in() {
    assert_eq!(
        run(&[Step::FocusedApplication, Step::FocusedWindow], false, false),
        (
            vec![
                Step::FocusedApplication,
                Step::WindowList,
                Step::Application,
                Step::FocusedWindow,
                Step::MainWindow,
                Step::Position,
                Step::Size,
                Step::VisibleScreens,
                Step::DisplayCount,
                Step::DisplayList,
                Step::Place,
                Step::SetSize,
                Step::SetPosition,
                Step::CheckPosition,
                Step::CheckSize,
                Step::ResetSize,
                Step::ResetPosition,
            ],
            Ok(())
        )
    );
}

#[test]
fn failing_step_ends_it() {
    let stand_ins = [Step::FocusedApplication, Step::FocusedWindow];
    let (all, _) = run(&stand_ins, false, false);
    for step in all {
        if stand_ins.contains(&step) {
            continue;
        }
        let (steps, result) = run(&[stand_ins[0], stand_ins[1], step], false, false);
        assert_eq!(steps.last(), Some(&step));
        assert_eq!(result, Err(failure(step)));
    }
}

#[test]
fn failed_search_leaves_the_cycle_alone() {
    for step in [Step::Position, Step::Size, Step::VisibleScreens] {
        let (steps, result) = run(&[step], true, true);
        assert!(result.is_err());
        assert!(!steps.contains(&Step::Place));
        assert!(!steps.contains(&Step::SetSize));
    }
}

#[test]
fn frame_is_set_again_only_where_needed() {
    let (near, _) = run(&[], true, true);
    assert!(!near.contains(&Step::ResetSize));
    let (far, _) = run(&[], true, false);
    assert_eq!(&far[far.len() - 2..], [Step::ResetSize, Step::ResetPosition]);
}
