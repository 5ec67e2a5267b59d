//! Placing the focused window, step by step.
//!
//! The steps themselves are calls into the system. What is decided here is which step
//! comes next, given how the last one went.

use vstd::prelude::*;

use crate::action::MacosWindowLayout;
use crate::cycle::{next_cycle_index, pressed, CycleKey, CycleState};
use crate::error::WindowError;
use crate::placement::{layout_placement, resolve_layout, Placement};

verus! {

/// One call into the system.
#[derive(Clone, Copy, Debug, PartialEq, Eq, Structural)]
pub enum Step {
    /// Ask which application has the focus.
    FocusedApplication,
    /// Find the process of the frontmost window.
    WindowList,
    /// Get the application of that process.
    Application,
    /// Ask the application for its focused window.
    FocusedWindow,
    /// Ask the application for its main window.
    MainWindow,
    /// Read where the window is.
    Position,
    /// Read how large the window is.
    Size,
    /// List the screens. The answer is yes where there are any.
    VisibleScreens,
    /// Count the displays.
    DisplayCount,
    /// List the displays.
    DisplayList,
    /// Find the screen of the window, go on to the next layout, and work out its frame.
    Place,
    /// Set the size of the window.
    SetSize,
    /// Set the position of the window.
    SetPosition,
    /// Read where the window is now.
    CheckPosition,
    /// Read how large the window is now. The answer is yes where the window is nearly
    /// where it was to be.
    CheckSize,
    /// Set the size again.
    ResetSize,
    /// Set the position again.
    ResetPosition,
}

/// How far the placing has come.
#[derive(Clone, Copy, Debug, PartialEq, Eq)]
pub enum Progress {
    /// This step is next.
    Next(Step),
    /// The window is placed, or it could not be.
    Finished(Result<(), WindowError>),
}

/// How a step went. Where the step asks a question, the answer; elsewhere either answer
/// says that it went well.
pub type Reply = Result<bool, WindowError>;

/// What is left of a reply when its answer does not matter.
pub open spec fn done(reply: Reply) -> Result<(), WindowError> {
    match reply {
        Ok(_) => Ok(()),
        Err(error) => Err(error),
    }
}

/// The second result, where the first is a success; else the first.
pub open spec fn and(first: Result<(), WindowError>, second: Result<(), WindowError>) -> Result<
    (),
    WindowError,
> {
    match first {
        Ok(_) => second,
        Err(error) => Err(error),
    }
}

/// Finding the window to place, when the steps go as `reply` says. Without a focused
/// application the one of the frontmost window is taken, and without a focused window the
/// main window.
pub open spec fn focused_window(reply: spec_fn(Step) -> Reply) -> Result<(), WindowError> {
    let application = if reply(Step::FocusedApplication) is Ok {
        Ok(())
    } else {
        and(done(reply(Step::WindowList)), done(reply(Step::Application)))
    };
    let window = if reply(Step::FocusedWindow) is Ok {
        Ok(())
    } else {
        done(reply(Step::MainWindow))
    };
    and(application, window)
}

/// Reading the frame of the window.
pub open spec fn window_frame(reply: spec_fn(Step) -> Reply) -> Result<(), WindowError> {
    and(done(reply(Step::Position)), done(reply(Step::Size)))
}

/// Listing the screens, or the displays where no screens are found.
pub open spec fn active_screens(reply: spec_fn(Step) -> Reply) -> Result<(), WindowError> {
    match reply(Step::VisibleScreens) {
        Ok(true) => Ok(()),
        Ok(false) => and(done(reply(Step::DisplayCount)), done(reply(Step::DisplayList))),
        Err(error) => Err(error),
    }
}

/// All that comes before the next layout is chosen.
pub open spec fn ready(reply: spec_fn(Step) -> Reply) -> Result<(), WindowError> {
    and(focused_window(reply), and(window_frame(reply), active_screens(reply)))
}

/// Setting the frame of the window: size before position, and once more where the window
/// is not nearly there.
pub open spec fn set_window_frame(reply: spec_fn(Step) -> Reply) -> Result<(), WindowError> {
    and(
        and(done(reply(Step::SetSize)), done(reply(Step::SetPosition))),
        and(
            done(reply(Step::CheckPosition)),
            match reply(Step::CheckSize) {
                Ok(true) => Ok(()),
                Ok(false) => and(done(reply(Step::ResetSize)), done(reply(Step::ResetPosition))),
                Err(error) => Err(error),
            },
        ),
    )
}

/// Placing the window from beginning to end, when the steps go as `reply` says.
pub open spec fn placing(reply: spec_fn(Step) -> Reply) -> Result<(), WindowError> {
    and(ready(reply), and(done(reply(Step::Place)), set_window_frame(reply)))
}

/// What follows a step that must go well.
pub open spec fn then_step(reply: Reply, next: Step) -> Progress {
    match reply {
        Ok(_) => Progress::Next(next),
        Err(error) => Progress::Finished(Err(error)),
    }
}

/// What follows a step that asks a question.
pub open spec fn then_either(reply: Reply, yes: Progress, no: Progress) -> Progress {
    match reply {
        Ok(true) => yes,
        Ok(false) => no,
        Err(error) => Progress::Finished(Err(error)),
    }
}

/// What follows a step that another can stand in for.
pub open spec fn then_or_else(reply: Reply, well: Step, badly: Step) -> Progress {
    match reply {
        Ok(_) => Progress::Next(well),
        Err(_) => Progress::Next(badly),
    }
}

/// What follows a step that went as `reply` says.
pub open spec fn after(step: Step, reply: Reply) -> Progress {
    match step {
        Step::FocusedApplication => then_or_else(reply, Step::FocusedWindow, Step::WindowList),
        Step::WindowList => then_step(reply, Step::Application),
        Step::Application => then_step(reply, Step::FocusedWindow),
        Step::FocusedWindow => then_or_else(reply, Step::Position, Step::MainWindow),
        Step::MainWindow => then_step(reply, Step::Position),
        Step::Position => then_step(reply, Step::Size),
        Step::Size => then_step(reply, Step::VisibleScreens),
        Step::VisibleScreens => then_either(
            reply,
            Progress::Next(Step::Place),
            Progress::Next(Step::DisplayCount),
        ),
        Step::DisplayCount => then_step(reply, Step::DisplayList),
        Step::DisplayList => then_step(reply, Step::Place),
        Step::Place => then_step(reply, Step::SetSize),
        Step::SetSize => then_step(reply, Step::SetPosition),
        Step::SetPosition => then_step(reply, Step::CheckPosition),
        Step::CheckPosition => then_step(reply, Step::CheckSize),
        Step::CheckSize => then_either(
            reply,
            Progress::Finished(Ok(())),
            Progress::Next(Step::ResetSize),
        ),
        Step::ResetSize => then_step(reply, Step::ResetPosition),
        Step::ResetPosition => Progress::Finished(done(reply)),
    }
}

/// How many steps can at most follow a step.
pub open spec fn steps_left(step: Step) -> nat {
    match step {
        Step::FocusedApplication => 16,
        Step::WindowList => 15,
        Step::Application => 14,
        Step::FocusedWindow => 13,
        Step::MainWindow => 12,
        Step::Position => 11,
        Step::Size => 10,
        Step::VisibleScreens => 9,
        Step::DisplayCount => 8,
        Step::DisplayList => 7,
        Step::Place => 6,
        Step::SetSize => 5,
        Step::SetPosition => 4,
        Step::CheckPosition => 3,
        Step::CheckSize => 2,
        Step::ResetSize => 1,
        Step::ResetPosition => 0,
    }
}

/// How the placing ends when it goes on from `step` and the steps go as `reply` says.
pub open spec fn ends(step: Step, reply: spec_fn(Step) -> Reply) -> Result<(), WindowError>
    decreases steps_left(step),
{
    match after(step, reply(step)) {
        Progress::Next(next) => ends(next, reply),
        Progress::Finished(result) => result,
    }
}

/// Whether `target` is taken when the placing goes on from `step`.
pub open spec fn takes(step: Step, reply: spec_fn(Step) -> Reply, target: Step) -> bool
    decreases steps_left(step),
{
    step == target || match after(step, reply(step)) {
        Progress::Next(next) => takes(next, reply, target),
        Progress::Finished(_) => false,
    }
}

/// A step that fails ends the placing with its own error. The two exceptions are asking
/// for the focused application and for the focused window, which others stand in for.
pub proof fn law_failure_ends_the_placing(step: Step, error: WindowError)
    ensures
        step != Step::FocusedApplication && step != Step::FocusedWindow ==> after(step, Err(error))
            == Progress::Finished(Err(error)),
        after(Step::FocusedApplication, Err(error)) == Progress::Next(Step::WindowList),
        after(Step::FocusedWindow, Err(error)) == Progress::Next(Step::MainWindow),
{
}

/// What follows when the steps of the search go well, whatever their answer.
pub proof fn law_search_goes_on(answer: bool)
    ensures
        after(Step::FocusedApplication, Ok(answer)) == Progress::Next(Step::FocusedWindow),
        after(Step::WindowList, Ok(answer)) == Progress::Next(Step::Application),
        after(Step::Application, Ok(answer)) == Progress::Next(Step::FocusedWindow),
        after(Step::FocusedWindow, Ok(answer)) == Progress::Next(Step::Position),
        after(Step::MainWindow, Ok(answer)) == Progress::Next(Step::Position),
        after(Step::Position, Ok(answer)) == Progress::Next(Step::Size),
        after(Step::Size, Ok(answer)) == Progress::Next(Step::VisibleScreens),
        after(Step::DisplayCount, Ok(answer)) == Progress::Next(Step::DisplayList),
        after(Step::DisplayList, Ok(answer)) == Progress::Next(Step::Place),
{
}

/// What follows when the steps that write the window go well, whatever their answer.
pub proof fn law_writing_goes_on(answer: bool)
    ensures
        after(Step::Place, Ok(answer)) == Progress::Next(Step::SetSize),
        after(Step::SetSize, Ok(answer)) == Progress::Next(Step::SetPosition),
        after(Step::SetPosition, Ok(answer)) == Progress::Next(Step::CheckPosition),
        after(Step::CheckPosition, Ok(answer)) == Progress::Next(Step::CheckSize),
        after(Step::ResetSize, Ok(answer)) == Progress::Next(Step::ResetPosition),
        after(Step::ResetPosition, Ok(answer)) == Progress::Finished(Ok(())),
{
}

/// The displays are listed only where there are no screens, and the frame is set again
/// only where the window is not nearly there.
pub proof fn law_answers_decide()
    ensures
        after(Step::VisibleScreens, Ok(true)) == Progress::Next(Step::Place),
        after(Step::VisibleScreens, Ok(false)) == Progress::Next(Step::DisplayCount),
        after(Step::CheckSize, Ok(true)) == Progress::Finished(Ok(())),
        after(Step::CheckSize, Ok(false)) == Progress::Next(Step::ResetSize),
{
}

/// The placing succeeds exactly where a window is found in one of the ways there are, its
/// frame and the screens are read, the layout is worked out, and every write goes well.
pub proof fn law_success_needs_every_part(reply: spec_fn(Step) -> Reply)
    ensures
        ends(Step::FocusedApplication, reply) is Ok <==> {
            &&& reply(Step::FocusedApplication) is Ok || (reply(Step::WindowList) is Ok && reply(
                Step::Application,
            ) is Ok)
            &&& reply(Step::FocusedWindow) is Ok || reply(Step::MainWindow) is Ok
            &&& reply(Step::Position) is Ok
            &&& reply(Step::Size) is Ok
            &&& reply(Step::VisibleScreens) == Ok::<bool, WindowError>(true) || (reply(
                Step::VisibleScreens,
            ) is Ok && reply(Step::DisplayCount) is Ok && reply(Step::DisplayList) is Ok)
            &&& reply(Step::Place) is Ok
            &&& reply(Step::SetSize) is Ok
            &&& reply(Step::SetPosition) is Ok
            &&& reply(Step::CheckPosition) is Ok
            &&& reply(Step::CheckSize) == Ok::<bool, WindowError>(true) || (reply(Step::CheckSize)
                is Ok && reply(Step::ResetSize) is Ok && reply(Step::ResetPosition) is Ok)
        },
{
    law_steps_place_the_window(reply);
}

/// No step is taken twice: each leaves fewer than the one before.
pub proof fn law_steps_run_out(step: Step, reply: Reply)
    ensures
        after(step, reply) matches Progress::Next(next) ==> steps_left(next) < steps_left(step),
{
}

/// The steps, taken one after the other, amount to placing the window: it ends as the
/// parts of the work, done in order, would have it end.
pub proof fn law_steps_place_the_window(reply: spec_fn(Step) -> Reply)
    ensures
        ends(Step::FocusedApplication, reply) == placing(reply),
{
    reveal_with_fuel(ends, 18);
}

/// A layout is chosen exactly where the window, its frame and the screens were found. So
/// a press that fails before leaves the cycle alone.
pub proof fn law_failed_search_leaves_cycle(reply: spec_fn(Step) -> Reply)
    ensures
        takes(Step::FocusedApplication, reply, Step::Place) <==> ready(reply) is Ok,
{
    reveal_with_fuel(takes, 18);
}

/// The window is not touched before its frame is worked out.
pub proof fn law_window_is_touched_last(reply: spec_fn(Step) -> Reply, step: Step)
    requires
        step == Step::SetSize || step == Step::SetPosition || step == Step::ResetSize || step
            == Step::ResetPosition,
        takes(Step::FocusedApplication, reply, step),
    ensures
        ready(reply) is Ok,
        reply(Step::Place) is Ok,
{
    reveal_with_fuel(takes, 18);
}

/// The frame is set a second time exactly where the first time went well and the window
/// was not nearly there.
pub proof fn law_second_attempt(reply: spec_fn(Step) -> Reply)
    ensures
        takes(Step::FocusedApplication, reply, Step::ResetSize) <==> {
            &&& ready(reply) is Ok
            &&& reply(Step::Place) is Ok
            &&& reply(Step::SetSize) is Ok
            &&& reply(Step::SetPosition) is Ok
            &&& reply(Step::CheckPosition) is Ok
            &&& reply(Step::CheckSize) == Ok::<bool, WindowError>(false)
        },
{
    reveal_with_fuel(takes, 18);
}

/// A failure is that of a step that was taken, and never that of a step that another
/// stood in for.
pub proof fn law_failure_is_that_of_a_step(reply: spec_fn(Step) -> Reply, error: WindowError)
    requires
        placing(reply) == Err::<(), _>(error),
    ensures
        exists|step: Step|
            {
                &&& #[trigger] reply(step) == Err::<bool, _>(error)
                &&& takes(Step::FocusedApplication, reply, step)
                &&& step != Step::FocusedApplication
                &&& step != Step::FocusedWindow
            },
{
    law_steps_place_the_window(reply);
    lemma_failing_step(Step::FocusedApplication, reply, error);
}

/// The step whose failure ends what goes on from `step`.
proof fn lemma_failing_step(step: Step, reply: spec_fn(Step) -> Reply, error: WindowError)
    requires
        ends(step, reply) == Err::<(), _>(error),
    ensures
        exists|failing: Step|
            {
                &&& #[trigger] reply(failing) == Err::<bool, _>(error)
                &&& takes(step, reply, failing)
                &&& failing != Step::FocusedApplication
                &&& failing != Step::FocusedWindow
            },
    decreases steps_left(step),
{
    match after(step, reply(step)) {
        Progress::Next(next) => {
            lemma_failing_step(next, reply, error);
            let failing = choose|failing: Step|
                {
                    &&& #[trigger] reply(failing) == Err::<bool, _>(error)
                    &&& takes(next, reply, failing)
                    &&& failing != Step::FocusedApplication
                    &&& failing != Step::FocusedWindow
                };
            assert(takes(step, reply, failing));
        },
        Progress::Finished(_) => {
            assert(reply(step) == Err::<bool, _>(error));
            assert(takes(step, reply, step));
        },
    }
}

/// Begins to place the focused window by one of the layouts.
pub fn apply_window_layouts(layouts: &[MacosWindowLayout]) -> (progress: Progress)
    ensures
        progress == if layouts@.len() == 0 {
            Progress::Finished(Err(WindowError::NoLayouts))
        } else {
            Progress::Next(Step::FocusedApplication)
        },
{
    if layouts.len() == 0 {
        Progress::Finished(Err(WindowError::NoLayouts))
    } else {
        Progress::Next(Step::FocusedApplication)
    }
}

/// What follows a step that must go well.
fn proceed(reply: Reply, next: Step) -> (progress: Progress)
    ensures
        progress == then_step(reply, next),
{
    match reply {
        Ok(_) => Progress::Next(next),
        Err(error) => Progress::Finished(Err(error)),
    }
}

/// What follows a step that asks a question.
fn decide(reply: Reply, yes: Progress, no: Progress) -> (progress: Progress)
    ensures
        progress == then_either(reply, yes, no),
{
    match reply {
        Ok(answer) => if answer {
            yes
        } else {
            no
        },
        Err(error) => Progress::Finished(Err(error)),
    }
}

/// What follows a step that another can stand in for.
fn fall_back(reply: Reply, well: Step, badly: Step) -> (progress: Progress)
    ensures
        progress == then_or_else(reply, well, badly),
{
    match reply {
        Ok(_) => Progress::Next(well),
        Err(_) => Progress::Next(badly),
    }
}

/// What comes next after a step that went as `reply` says.
pub fn next_step(step: Step, reply: Reply) -> (progress: Progress)
    ensures
        progress == after(step, reply),
        progress matches Progress::Next(next) ==> steps_left(next) < steps_left(step),
{
    match step {
        Step::FocusedApplication => fall_back(reply, Step::FocusedWindow, Step::WindowList),
        Step::WindowList => proceed(reply, Step::Application),
        Step::Application => proceed(reply, Step::FocusedWindow),
        Step::FocusedWindow => fall_back(reply, Step::Position, Step::MainWindow),
        Step::MainWindow => proceed(reply, Step::Position),
        Step::Position => proceed(reply, Step::Size),
        Step::Size => proceed(reply, Step::VisibleScreens),
        Step::VisibleScreens => decide(
            reply,
            Progress::Next(Step::Place),
            Progress::Next(Step::DisplayCount),
        ),
        Step::DisplayCount => proceed(reply, Step::DisplayList),
        Step::DisplayList => proceed(reply, Step::Place),
        Step::Place => proceed(reply, Step::SetSize),
        Step::SetSize => proceed(reply, Step::SetPosition),
        Step::SetPosition => proceed(reply, Step::CheckPosition),
        Step::CheckPosition => proceed(reply, Step::CheckSize),
        Step::CheckSize => decide(
            reply,
            Progress::Finished(Ok(())),
            Progress::Next(Step::ResetSize),
        ),
        Step::ResetSize => proceed(reply, Step::ResetPosition),
        Step::ResetPosition => match reply {
            Ok(_) => Progress::Finished(Ok(())),
            Err(error) => Progress::Finished(Err(error)),
        },
    }
}

/// Goes on to the next layout of the cycle, and says where it puts the window.
/// `layouts_ptr` tells these layouts from those of other actions.
pub fn next_placement(
    state: &mut CycleState,
    layouts: &[MacosWindowLayout],
    layouts_ptr: usize,
    now: u128,
) -> (placement: Placement)
    requires
        layouts@.len() > 0,
    ensures
        final(state)@ == pressed(
            old(state)@,
            CycleKey { layouts_ptr, layouts_len: layouts@.len() as usize },
            now as int,
        ),
        placement == layout_placement(layouts@[final(state)@.step]),
{
    let key = CycleKey { layouts_ptr, layouts_len: layouts.len() };
    let index: usize = next_cycle_index(state, key, now);
    resolve_layout(layouts[index])
}

} // verus!
