//! What can go wrong while a window is placed.

use vstd::prelude::*;

use crate::text::{decimal_integer, decimal_text, law_decimal_reads_back};

verus! {

/// An attribute of an accessibility element.
#[derive(Clone, Copy, Debug, PartialEq, Eq, Structural)]
pub enum Attribute {
    FocusedApplication,
    FocusedWindow,
    MainWindow,
    Position,
    Size,
}

/// Why a window could not be placed.
#[derive(Clone, Copy, Debug, PartialEq, Eq, Structural)]
pub enum WindowError {
    /// The action has no layouts.
    NoLayouts,
    /// There is no element for the system as a whole.
    NoSystemElement,
    /// There is no element for the application with this process id.
    NoApplicationElement(i32),
    /// The system gave no list of windows.
    NoWindowList,
    /// No listed window is an ordinary window with a process id.
    NoFrontmostWindow,
    /// Reading an attribute failed with this code.
    CopyAttribute(Attribute, i32),
    /// The value of an attribute is no point.
    NotAPoint(Attribute),
    /// The value of an attribute is no size.
    NotASize(Attribute),
    /// Listing the displays failed with this code.
    DisplayList(i32),
    /// No value could be made for an attribute.
    CreateValue(Attribute),
    /// Writing an attribute failed with this code.
    SetAttribute(Attribute, i32),
}

/// The system's name for an attribute.
pub open spec fn attribute_name(attribute: Attribute) -> Seq<char> {
    match attribute {
        Attribute::FocusedApplication => "AXFocusedApplication"@,
        Attribute::FocusedWindow => "AXFocusedWindow"@,
        Attribute::MainWindow => "AXMainWindow"@,
        Attribute::Position => "AXPosition"@,
        Attribute::Size => "AXSize"@,
    }
}

/// How an error is told to the user.
pub open spec fn error_message(error: WindowError) -> Seq<char> {
    match error {
        WindowError::NoLayouts => "macos-window action has no layouts"@,
        WindowError::NoSystemElement => "AXUIElementCreateSystemWide returned null"@,
        WindowError::NoApplicationElement(pid) => "AXUIElementCreateApplication("@ + decimal_text(
            pid as int,
        ) + ") returned null"@,
        WindowError::NoWindowList => "CGWindowListCopyWindowInfo returned null"@,
        WindowError::NoFrontmostWindow => "could not find a frontmost on-screen window PID"@,
        WindowError::CopyAttribute(attribute, code) => "AXUIElementCopyAttributeValue("@
            + attribute_name(attribute) + ") failed with AXError "@ + decimal_text(code as int),
        WindowError::NotAPoint(attribute) => "AXValueGetValue("@ + attribute_name(attribute)
            + ") did not contain a CGPoint"@,
        WindowError::NotASize(attribute) => "AXValueGetValue("@ + attribute_name(attribute)
            + ") did not contain a CGSize"@,
        WindowError::DisplayList(code) => "CGGetActiveDisplayList failed with CGError "@
            + decimal_text(code as int),
        WindowError::CreateValue(attribute) => "AXValueCreate("@ + attribute_name(attribute)
            + ") returned null"@,
        WindowError::SetAttribute(attribute, code) => "AXUIElementSetAttributeValue("@
            + attribute_name(attribute) + ") failed with AXError "@ + decimal_text(code as int),
    }
}

impl Attribute {
    /// The system's name for the attribute.
    pub fn name(self) -> (name: &'static str)
        ensures
            name@ == attribute_name(self),
    {
        match self {
            Attribute::FocusedApplication => "AXFocusedApplication",
            Attribute::FocusedWindow => "AXFocusedWindow",
            Attribute::MainWindow => "AXMainWindow",
            Attribute::Position => "AXPosition",
            Attribute::Size => "AXSize",
        }
    }
}

impl WindowError {
    /// How the error is told to the user.
    pub fn message(self) -> (message: String)
        ensures
            message@ == error_message(self),
    {
        match self {
            WindowError::NoLayouts => "macos-window action has no layouts".to_owned(),
            WindowError::NoSystemElement => "AXUIElementCreateSystemWide returned null".to_owned(),
            WindowError::NoApplicationElement(pid) => {
                let pid = decimal_integer(pid as i64);
                "AXUIElementCreateApplication(".to_owned().concat(pid.as_str()).concat(
                    ") returned null",
                )
            },
            WindowError::NoWindowList => "CGWindowListCopyWindowInfo returned null".to_owned(),
            WindowError::NoFrontmostWindow => {
                "could not find a frontmost on-screen window PID".to_owned()
            },
            WindowError::CopyAttribute(attribute, code) => {
                let code = decimal_integer(code as i64);
                "AXUIElementCopyAttributeValue(".to_owned().concat(attribute.name()).concat(
                    ") failed with AXError ",
                ).concat(code.as_str())
            },
            WindowError::NotAPoint(attribute) => {
                "AXValueGetValue(".to_owned().concat(attribute.name()).concat(
                    ") did not contain a CGPoint",
                )
            },
            WindowError::NotASize(attribute) => {
                "AXValueGetValue(".to_owned().concat(attribute.name()).concat(
                    ") did not contain a CGSize",
                )
            },
            WindowError::DisplayList(code) => {
                let code = decimal_integer(code as i64);
                "CGGetActiveDisplayList failed with CGError ".to_owned().concat(code.as_str())
            },
            WindowError::CreateValue(attribute) => {
                "AXValueCreate(".to_owned().concat(attribute.name()).concat(") returned null")
            },
            WindowError::SetAttribute(attribute, code) => {
                let code = decimal_integer(code as i64);
                "AXUIElementSetAttributeValue(".to_owned().concat(attribute.name()).concat(
                    ") failed with AXError ",
                ).concat(code.as_str())
            },
        }
    }
}

/// The messages that name a number name it in decimal, between fixed words.
pub proof fn law_messages_name_their_number(number: i32, attribute: Attribute)
    ensures
        error_message(WindowError::NoApplicationElement(number))
            == "AXUIElementCreateApplication("@ + decimal_text(number as int)
            + ") returned null"@,
        error_message(WindowError::DisplayList(number))
            == "CGGetActiveDisplayList failed with CGError "@ + decimal_text(number as int),
        error_message(WindowError::CopyAttribute(attribute, number))
            == "AXUIElementCopyAttributeValue("@ + attribute_name(attribute)
            + ") failed with AXError "@ + decimal_text(number as int),
        error_message(WindowError::SetAttribute(attribute, number))
            == "AXUIElementSetAttributeValue("@ + attribute_name(attribute)
            + ") failed with AXError "@ + decimal_text(number as int),
{
}

/// The messages that name an attribute name it between fixed words.
pub proof fn law_messages_name_their_attribute(attribute: Attribute)
    ensures
        error_message(WindowError::NotAPoint(attribute)) == "AXValueGetValue("@ + attribute_name(
            attribute,
        ) + ") did not contain a CGPoint"@,
        error_message(WindowError::NotASize(attribute)) == "AXValueGetValue("@ + attribute_name(
            attribute,
        ) + ") did not contain a CGSize"@,
        error_message(WindowError::CreateValue(attribute)) == "AXValueCreate("@ + attribute_name(
            attribute,
        ) + ") returned null"@,
{
}

/// Two errors of one kind and about one attribute read alike only where their numbers are
/// the same.
pub proof fn law_messages_tell_numbers_apart(attribute: Attribute, a: i32, b: i32)
    requires
        error_message(WindowError::NoApplicationElement(a)) == error_message(
            WindowError::NoApplicationElement(b),
        ) || error_message(WindowError::DisplayList(a)) == error_message(
            WindowError::DisplayList(b),
        ) || error_message(WindowError::CopyAttribute(attribute, a)) == error_message(
            WindowError::CopyAttribute(attribute, b),
        ) || error_message(WindowError::SetAttribute(attribute, a)) == error_message(
            WindowError::SetAttribute(attribute, b),
        ),
    ensures
        a == b,
{
    let ta = decimal_text(a as int);
    let tb = decimal_text(b as int);
    law_decimal_reads_back(a);
    law_decimal_reads_back(b);
    let none = Seq::<char>::empty();
    assert(ta + none =~= ta);
    assert(tb + none =~= tb);
    if error_message(WindowError::NoApplicationElement(a)) == error_message(
        WindowError::NoApplicationElement(b),
    ) {
        lemma_same_middle(
            "AXUIElementCreateApplication("@,
            ta,
            tb,
            ") returned null"@,
        );
    } else if error_message(WindowError::DisplayList(a)) == error_message(
        WindowError::DisplayList(b),
    ) {
        lemma_same_middle("CGGetActiveDisplayList failed with CGError "@, ta, tb, none);
    } else if error_message(WindowError::CopyAttribute(attribute, a)) == error_message(
        WindowError::CopyAttribute(attribute, b),
    ) {
        lemma_same_middle(
            "AXUIElementCopyAttributeValue("@ + attribute_name(attribute)
                + ") failed with AXError "@,
            ta,
            tb,
            none,
        );
    } else {
        lemma_same_middle(
            "AXUIElementSetAttributeValue("@ + attribute_name(attribute)
                + ") failed with AXError "@,
            ta,
            tb,
            none,
        );
    }
}

/// Equal texts with the same beginning and end have the same middle.
proof fn lemma_same_middle(front: Seq<char>, a: Seq<char>, b: Seq<char>, back: Seq<char>)
    requires
        front + a + back == front + b + back || (back.len() == 0 && front + a == front + b),
    ensures
        a == b,
{
    let whole_a = front + a + back;
    let whole_b = front + b + back;
    if back.len() == 0 {
        assert(whole_a =~= front + a);
        assert(whole_b =~= front + b);
    }
    assert(whole_a.len() == whole_b.len());
    assert(a =~= whole_a.subrange(front.len() as int, (front.len() + a.len()) as int));
    assert(b =~= whole_b.subrange(front.len() as int, (front.len() + b.len()) as int));
}

} // verus!
