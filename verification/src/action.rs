//! The values that window actions are made of.

use vstd::prelude::*;

verus! {

/// A window operation that an action names by one word.
#[derive(Clone, Copy, Debug, PartialEq, Eq, Structural)]
pub enum MacosWindowCommand {
    Maximize,
    Restore,
    MaximizeHeight,
    MaximizeWidth,
    AlmostMaximize,
    ReasonableSize,
    Center,
    CenterHalf,
    LeftHalf,
    RightHalf,
    TopHalf,
    BottomHalf,
    FirstThird,
    CenterThird,
    LastThird,
    FirstTwoThirds,
    CenterTwoThirds,
    LastTwoThirds,
    FirstThreeFourths,
    CenterThreeFourths,
    LastThreeFourths,
    TopThird,
    MiddleThird,
    BottomThird,
    TopTwoThirds,
    BottomTwoThirds,
    TopFirstFourth,
    TopSecondFourth,
    TopThirdFourth,
    TopLastFourth,
    TopThreeFourths,
    BottomThreeFourths,
    TopCenterTwoThirds,
    BottomCenterTwoThirds,
    FirstFourth,
    SecondFourth,
    ThirdFourth,
    LastFourth,
    TopLeftSixth,
    TopCenterSixth,
    TopRightSixth,
    BottomLeftSixth,
    BottomCenterSixth,
    BottomRightSixth,
    MoveLeft,
    MoveRight,
    MoveTop,
    MoveBottom,
    MovePreviousSpace,
    MoveNextSpace,
    SwitchPreviousSpace,
    SwitchNextSpace,
    MovePreviousDisplay,
    MoveNextDisplay,
    TopLeftQuarter,
    TopRightQuarter,
    BottomLeftQuarter,
    BottomRightQuarter,
    MakeSmaller,
    MakeLarger,
    ToggleFullscreen,
}

/// A fixed arrangement of the window on its screen.
#[derive(Clone, Copy, Debug, PartialEq, Eq, Structural)]
pub enum MacosWindowPreset {
    Maximize,
    AlmostMaximize,
    LeftHalf,
    RightHalf,
    TopHalf,
    BottomHalf,
    Center,
    FirstThird,
    CenterThird,
    LastThird,
    LeftTwoThirds,
    CenterTwoThirds,
    RightTwoThirds,
    FirstThreeFourths,
    CenterThreeFourths,
    LastThreeFourths,
    TopThird,
    MiddleThird,
    BottomThird,
    TopTwoThirds,
    BottomTwoThirds,
    TopCenterTwoThirds,
    BottomCenterTwoThirds,
    TopFirstFourth,
    TopSecondFourth,
    TopThirdFourth,
    TopLastFourth,
    TopThreeFourths,
    BottomThreeFourths,
    FirstFourth,
    SecondFourth,
    ThirdFourth,
    LastFourth,
    TopLeftQuarter,
    TopRightQuarter,
    BottomLeftQuarter,
    BottomRightQuarter,
    TopLeftSixth,
    TopCenterSixth,
    TopRightSixth,
    BottomLeftSixth,
    BottomCenterSixth,
    BottomRightSixth,
    MoveLeft,
    MoveRight,
    MoveTop,
    MoveBottom,
}

/// A rectangle within the work area of a screen, in basis points of the area's width
/// (`x`, `width`) and height (`y`, `height`).
#[derive(Clone, Copy, Debug, PartialEq, Eq, Structural)]
pub struct MacosWindowFrame {
    pub x: i32,
    pub y: i32,
    pub width: i32,
    pub height: i32,
}

/// One place to put the window.
#[derive(Clone, Copy, Debug, PartialEq, Eq, Structural)]
pub enum MacosWindowLayout {
    Frame(MacosWindowFrame),
    Preset(MacosWindowPreset),
}

/// A parsed window action: one command, or the frames that repeated presses go through.
#[derive(Debug)]
pub enum MacosWindowAction {
    Command(MacosWindowCommand),
    FrameCycle(Vec<MacosWindowFrame>),
}

/// What a [`MacosWindowAction`] holds.
pub enum ActionView {
    Command(MacosWindowCommand),
    FrameCycle(Seq<MacosWindowFrame>),
}

impl View for MacosWindowAction {
    type V = ActionView;

    open spec fn view(&self) -> ActionView {
        match self {
            MacosWindowAction::Command(command) => ActionView::Command(*command),
            MacosWindowAction::FrameCycle(frames) => ActionView::FrameCycle(frames@),
        }
    }
}

} // verus!
