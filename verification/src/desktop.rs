//! What the replies of the system mean: windows, screens, displays and attributes.

use vstd::prelude::*;

use crate::error::{Attribute, WindowError};

verus! {

/// The code by which accessibility calls report success.
pub const K_AX_ERROR_SUCCESS: i32 = 0;

/// The code by which display calls report success.
pub const KCG_ERROR_SUCCESS: i32 = 0;

/// The layer of ordinary windows.
pub const WINDOW_LAYER: i32 = 0;

/// What the system tells of a listed window.
#[derive(Clone, Copy, Debug, PartialEq, Eq, Structural)]
pub struct WindowInfo {
    pub layer: Option<i32>,
    pub pid: Option<i32>,
}

/// What the system tells of one place in its list of screens.
#[derive(Clone, Copy, Debug, PartialEq, Eq, Structural)]
pub enum ScreenProbe {
    /// There is no screen.
    Absent,
    /// The screen has no number.
    Unnumbered,
    /// The screen is the display with this number.
    Display(u32),
}

/// A screen that windows can be put on: its place in the list, and its display.
#[derive(Clone, Copy, Debug, PartialEq, Eq, Structural)]
pub struct VisibleScreen {
    pub index: usize,
    pub display_id: u32,
}

/// The process id of an ordinary window; `None` for other entries of the window list.
pub open spec fn ordinary_window_pid(entry: Option<WindowInfo>) -> Option<i32> {
    match entry {
        Some(window) => if window.layer == Some(WINDOW_LAYER) {
            window.pid
        } else {
            None
        },
        None => None,
    }
}

/// The screens among the entries of a list, in order.
pub open spec fn screens_among(probes: Seq<ScreenProbe>) -> Seq<VisibleScreen>
    decreases probes.len(),
{
    if probes.len() == 0 {
        Seq::empty()
    } else {
        let before = screens_among(probes.drop_last());
        match probes.last() {
            ScreenProbe::Display(display_id) => before.push(
                VisibleScreen { index: (probes.len() - 1) as usize, display_id },
            ),
            _ => before,
        }
    }
}

/// An entry gives a process id exactly where it is a window on the layer 0 that has that
/// process id.
pub proof fn law_ordinary_windows_are_on_layer_zero(entry: Option<WindowInfo>, pid: i32)
    ensures
        ordinary_window_pid(entry) == Some(pid) <==> entry == Some(
            WindowInfo { layer: Some(0), pid: Some(pid) },
        ),
{
}

/// Every numbered screen of the list is among the screens, and no other.
pub proof fn law_screens_are_the_numbered_ones(probes: Seq<ScreenProbe>, screen: VisibleScreen)
    requires
        probes.len() <= usize::MAX,
    ensures
        screens_among(probes).contains(screen) <==> screen.index < probes.len()
            && probes[screen.index as int] == ScreenProbe::Display(screen.display_id),
    decreases probes.len(),
{
    let all = screens_among(probes);
    if probes.len() > 0 {
        let front = probes.drop_last();
        let before = screens_among(front);
        law_screens_are_the_numbered_ones(front, screen);
        if let ScreenProbe::Display(display_id) = probes.last() {
            let last = VisibleScreen { index: (probes.len() - 1) as usize, display_id };
            assert(all == before.push(last));
            if before.contains(screen) {
                let i = before.index_of(screen);
                assert(all[i] == screen);
            }
            if screen == last {
                assert(all[all.len() - 1] == screen);
            }
            if all.contains(screen) && screen != last {
                let i = all.index_of(screen);
                assert(before[i] == screen);
            }
        }
    }
}

/// The screens come in the order of the list, and none comes twice.
pub proof fn law_screens_keep_their_order(probes: Seq<ScreenProbe>, i: int, j: int)
    requires
        probes.len() <= usize::MAX,
        0 <= i < j < screens_among(probes).len(),
    ensures
        screens_among(probes)[i].index < screens_among(probes)[j].index < probes.len(),
    decreases probes.len(),
{
    let front = probes.drop_last();
    let before = screens_among(front);
    if j < before.len() {
        law_screens_keep_their_order(front, i, j);
    } else {
        law_screens_are_the_numbered_ones(front, before[i]);
        assert(before.contains(before[i]));
    }
}

/// The process that the frontmost ordinary window belongs to. `windows` lists what is on
/// the screen from front to back, with `None` for entries that describe no window; it is
/// `None` where the system gave no list.
pub fn frontmost_window_pid(windows: Option<&[Option<WindowInfo>]>) -> (found: Result<
    i32,
    WindowError,
>)
    ensures
        match windows {
            None => found == Err::<i32, _>(WindowError::NoWindowList),
            Some(list) => match found {
                Ok(pid) => exists|i: int|
                    {
                        &&& 0 <= i < list@.len()
                        &&& ordinary_window_pid(#[trigger] list@[i]) == Some(pid)
                        &&& list@[i] == Some(WindowInfo { layer: Some(0), pid: Some(pid) })
                        &&& forall|j: int|
                            0 <= j < i && (#[trigger] list@[j]) is Some ==> !(
                            list@[j]->0.layer == Some(0i32) && list@[j]->0.pid is Some)
                        &&& forall|j: int|
                            0 <= j < i ==> ordinary_window_pid(#[trigger] list@[j]) is None
                    },
                Err(error) => {
                    &&& error == WindowError::NoFrontmostWindow
                    &&& forall|i: int|
                        0 <= i < list@.len() && (#[trigger] list@[i]) is Some ==> !(
                        list@[i]->0.layer == Some(0i32) && list@[i]->0.pid is Some)
                    &&& forall|i: int|
                        0 <= i < list@.len() ==> ordinary_window_pid(#[trigger] list@[i]) is None
                },
            },
        },
{
    let list = match windows {
        Some(list) => list,
        None => {
            return Err(WindowError::NoWindowList);
        },
    };
    let mut i: usize = 0;
    while i < list.len()
        invariant
            windows == Some(list),
            i <= list@.len(),
            forall|j: int| 0 <= j < i ==> ordinary_window_pid(#[trigger] list@[j]) is None,
        decreases list@.len() - i,
    {
        if let Some(window) = list[i] {
            if let Some(layer) = window.layer {
                if layer == WINDOW_LAYER {
                    if let Some(pid) = window.pid {
                        assert(ordinary_window_pid(list@[i as int]) == Some(pid));
                        return Ok(pid);
                    }
                }
            }
        }
        i += 1;
    }
    Err(WindowError::NoFrontmostWindow)
}

/// The screens in a list; none where the system gave no list.
pub fn visible_screens(probes: Option<&[ScreenProbe]>) -> (screens: Vec<VisibleScreen>)
    ensures
        match probes {
            Some(list) => screens@ == screens_among(list@),
            None => screens@.len() == 0,
        },
{
    let mut screens: Vec<VisibleScreen> = Vec::new();
    let list = match probes {
        Some(list) => list,
        None => {
            return screens;
        },
    };
    let mut i: usize = 0;
    assert(list@.take(0) =~= Seq::<ScreenProbe>::empty());
    while i < list.len()
        invariant
            i <= list@.len(),
            screens@ == screens_among(list@.take(i as int)),
        decreases list@.len() - i,
    {
        assert(list@.take(i + 1).drop_last() =~= list@.take(i as int));
        if let ScreenProbe::Display(display_id) = list[i] {
            screens.push(VisibleScreen { index: i, display_id });
        }
        i += 1;
    }
    assert(list@.take(i as int) =~= list@);
    screens
}

/// The displays that a second call has filled in: the first `count` of them.
pub fn active_displays(displays: &[u32], count: u32) -> (active: Vec<u32>)
    ensures
        active@ == displays@.take(
            if count <= displays@.len() {
                count as int
            } else {
                displays@.len() as int
            },
        ),
{
    let mut active: Vec<u32> = Vec::new();
    let mut i: usize = 0;
    while i < displays.len() && (i as u64) < (count as u64)
        invariant
            i <= displays@.len(),
            i <= count,
            active@ == displays@.take(i as int),
        decreases displays@.len() - i,
    {
        active.push(displays[i]);
        assert(displays@.take(i + 1) =~= displays@.take(i as int).push(displays@[i as int]));
        i += 1;
    }
    active
}

/// The first screen that holds the center of the window, where `holds_center` tells of
/// each screen whether it does; `None` where none does and the main display is used.
pub fn screen_for_rect(holds_center: &[bool]) -> (screen: Option<usize>)
    ensures
        match screen {
            Some(i) => {
                &&& i < holds_center@.len()
                &&& holds_center@[i as int]
                &&& forall|j: int| 0 <= j < i ==> !#[trigger] holds_center@[j]
            },
            None => forall|j: int| 0 <= j < holds_center@.len() ==> !#[trigger] holds_center@[j],
        },
{
    let mut i: usize = 0;
    while i < holds_center.len()
        invariant
            i <= holds_center@.len(),
            forall|j: int| 0 <= j < i ==> !#[trigger] holds_center@[j],
        decreases holds_center@.len() - i,
    {
        if holds_center[i] {
            return Some(i);
        }
        i += 1;
    }
    None
}

/// Judges the request for the element of the whole system.
pub fn check_system_element(is_null: bool) -> (judged: Result<(), WindowError>)
    ensures
        judged == if is_null {
            Err(WindowError::NoSystemElement)
        } else {
            Ok(())
        },
{
    if is_null {
        Err(WindowError::NoSystemElement)
    } else {
        Ok(())
    }
}

/// Judges the request for the element of an application.
pub fn application_for_pid(pid: i32, is_null: bool) -> (judged: Result<(), WindowError>)
    ensures
        judged == if is_null {
            Err(WindowError::NoApplicationElement(pid))
        } else {
            Ok(())
        },
{
    if is_null {
        Err(WindowError::NoApplicationElement(pid))
    } else {
        Ok(())
    }
}

/// Judges the reading of an attribute by its code and by whether a value came.
pub fn copy_ax_attr(attribute: Attribute, code: i32, is_null: bool) -> (judged: Result<
    (),
    WindowError,
>)
    ensures
        judged == if code == K_AX_ERROR_SUCCESS && !is_null {
            Ok(())
        } else {
            Err(WindowError::CopyAttribute(attribute, code))
        },
{
    if code != K_AX_ERROR_SUCCESS || is_null {
        Err(WindowError::CopyAttribute(attribute, code))
    } else {
        Ok(())
    }
}

/// Judges whether the value of an attribute was a point.
pub fn ax_point(attribute: Attribute, is_point: bool) -> (judged: Result<(), WindowError>)
    ensures
        judged == if is_point {
            Ok(())
        } else {
            Err(WindowError::NotAPoint(attribute))
        },
{
    if is_point {
        Ok(())
    } else {
        Err(WindowError::NotAPoint(attribute))
    }
}

/// Judges whether the value of an attribute was a size.
pub fn ax_size(attribute: Attribute, is_size: bool) -> (judged: Result<(), WindowError>)
    ensures
        judged == if is_size {
            Ok(())
        } else {
            Err(WindowError::NotASize(attribute))
        },
{
    if is_size {
        Ok(())
    } else {
        Err(WindowError::NotASize(attribute))
    }
}

/// Judges the making of a value for an attribute.
pub fn check_created_value(attribute: Attribute, is_null: bool) -> (judged: Result<
    (),
    WindowError,
>)
    ensures
        judged == if is_null {
            Err(WindowError::CreateValue(attribute))
        } else {
            Ok(())
        },
{
    if is_null {
        Err(WindowError::CreateValue(attribute))
    } else {
        Ok(())
    }
}

/// Judges the writing of an attribute by its code.
pub fn set_ax_attr(attribute: Attribute, code: i32) -> (judged: Result<(), WindowError>)
    ensures
        judged == if code == K_AX_ERROR_SUCCESS {
            Ok(())
        } else {
            Err(WindowError::SetAttribute(attribute, code))
        },
{
    if code != K_AX_ERROR_SUCCESS {
        Err(WindowError::SetAttribute(attribute, code))
    } else {
        Ok(())
    }
}

/// Judges the listing of the displays by its code.
pub fn check_display_list(code: i32) -> (judged: Result<(), WindowError>)
    ensures
        judged == if code == KCG_ERROR_SUCCESS {
            Ok(())
        } else {
            Err(WindowError::DisplayList(code))
        },
{
    if code != KCG_ERROR_SUCCESS {
        Err(WindowError::DisplayList(code))
    } else {
        Ok(())
    }
}

} // verus!
