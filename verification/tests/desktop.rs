use macos_window::desktop::{
    active_displays, application_for_pid, ax_point, ax_size, check_created_value,
    check_display_list, check_system_element, copy_ax_attr, frontmost_window_pid,
    screen_for_rect, set_ax_attr, visible_screens, ScreenProbe, VisibleScreen, WindowInfo,
};
use macos_window::error::{Attribute, WindowError};

fn window(layer: Option<i32>, pid: Option<i32>) -> Option<WindowInfo> {
    Some(WindowInfo { layer, pid })
}

#[test]
fn frontmost_ordinary_window_is_found() {
    let windows = [
        None,
        window(Some(25), Some(1)),
        window(None, Some(2)),
        window(Some(0), None),
        window(Some(0), Some(3)),
        window(Some(0), Some(4)),
    ];
    assert_eq!(frontmost_window_pid(Some(&windows)), Ok(3));
}

#[test]
fn frontmost_window_may_be_missing() {
    assert_eq!(frontmost_window_pid(None), Err(WindowError::NoWindowList));
    assert_eq!(frontmost_window_pid(Some(&[])), Err(WindowError::NoFrontmostWindow));
    let windows = [None, window(Some(1), Some(1)), window(Some(0), None)];
    assert_eq!(frontmost_window_pid(Some(&windows)), Err(WindowError::NoFrontmostWindow));
}

#[test]
fn numbered_screens_are_kept_in_order() {
    let probes = [
        ScreenProbe::Absent,
        ScreenProbe::Display(7),
        ScreenProbe::Unnumbered,
        ScreenProbe::Display(5),
    ];
    assert_eq!(
        visible_screens(Some(&probes)),
        vec![
            VisibleScreen { index: 1, display_id: 7 },
            VisibleScreen { index: 3, display_id: 5 },
        ]
    );
    assert_eq!(visible_screens(Some(&[])), Vec::new());
    assert_eq!(visible_screens(None), Vec::new());
}

#[test]
fn displays_are_cut_to_the_count() {
    let displays = [3, 1, 2];
    assert_eq!(active_displays(&displays, 0), Vec::<u32>::new());
    assert_eq!(active_displays(&displays, 2), vec![3, 1]);
    assert_eq!(active_displays(&displays, 3), vec![3, 1, 2]);
    assert_eq!(active_displays(&displays, u32::MAX), vec![3, 1, 2]);
}

#[test]
fn first_screen_with_the_center_is_used() {
    assert_eq!(screen_for_rect(&[]), None);
    assert_eq!(screen_for_rect(&[false, false]), None);
    assert_eq!(screen_for_rect(&[false, true, true]), Some(1));
}

#[test]
fn replies_are_judged() {
    let size = Attribute::Size;
    assert_eq!(check_system_element(false), Ok(()));
    assert_eq!(check_system_element(true), Err(WindowError::NoSystemElement));
    assert_eq!(application_for_pid(9, false), Ok(()));
    assert_eq!(application_for_pid(9, true), Err(WindowError::NoApplicationElement(9)));
    assert_eq!(copy_ax_attr(size, 0, false), Ok(()));
    assert_eq!(copy_ax_attr(size, 0, true), Err(WindowError::CopyAttribute(size, 0)));
    assert_eq!(
        copy_ax_attr(size, -25212, false),
        Err(WindowError::CopyAttribute(size, -25212))
    );
    assert_eq!(ax_point(size, true), Ok(()));
    assert_eq!(ax_point(size, false), Err(WindowError::NotAPoint(size)));
    assert_eq!(ax_size(size, true), Ok(()));
    assert_eq!(ax_size(size, false), Err(WindowError::NotASize(size)));
    assert_eq!(check_created_value(size, false), Ok(()));
    assert_eq!(check_created_value(size, true), Err(WindowError::CreateValue(size)));
    assert_eq!(set_ax_attr(size, 0), Ok(()));
    assert_eq!(set_ax_attr(size, -25200), Err(WindowError::SetAttribute(size, -25200)));
    assert_eq!(check_display_list(0), Ok(()));
    assert_eq!(check_display_list(1001), Err(WindowError::DisplayList(1001)));
}

#[test]
fn errors_are_told() {
    for (error, message) in [
        (WindowError::NoLayouts, "macos-window action has no layouts"),
        (WindowError::NoSystemElement, "AXUIElementCreateSystemWide returned null"),
        (
            WindowError::NoApplicationElement(-7),
            "AXUIElementCreateApplication(-7) returned null",
        ),
        (WindowError::NoWindowList, "CGWindowListCopyWindowInfo returned null"),
        (
            WindowError::NoFrontmostWindow,
            "could not find a frontmost on-screen window PID",
        ),
        (
            WindowError::CopyAttribute(Attribute::FocusedWindow, -25212),
            "AXUIElementCopyAttributeValue(AXFocusedWindow) failed with AXError -25212",
        ),
        (
            WindowError::NotAPoint(Attribute::Position),
            "AXValueGetValue(AXPosition) did not contain a CGPoint",
        ),
        (
            WindowError::NotASize(Attribute::Size),
            "AXValueGetValue(AXSize) did not contain a CGSize",
        ),
        (
            WindowError::DisplayList(1001),
            "CGGetActiveDisplayList failed with CGError 1001",
        ),
        (
            WindowError::CreateValue(Attribute::MainWindow),
            "AXValueCreate(AXMainWindow) returned null",
        ),
        (
            WindowError::SetAttribute(Attribute::FocusedApplication, -25200),
            "AXUIElementSetAttributeValue(AXFocusedApplication) failed with AXError -25200",
        ),
    ] {
        assert_eq!(error.message(), message);
    }
}
