//! The words that name window commands.

use vstd::prelude::*;

use crate::action::MacosWindowCommand;
use crate::text::same_text;

verus! {

/// The word for a command.
pub open spec fn command_name(command: MacosWindowCommand) -> Seq<char> {
    match command {
        MacosWindowCommand::Maximize => "maximize"@,
        MacosWindowCommand::Restore => "restore"@,
        MacosWindowCommand::MaximizeHeight => "maximize-height"@,
        MacosWindowCommand::MaximizeWidth => "maximize-width"@,
        MacosWindowCommand::AlmostMaximize => "almost-maximize"@,
        MacosWindowCommand::ReasonableSize => "reasonable-size"@,
        MacosWindowCommand::Center => "center"@,
        MacosWindowCommand::CenterHalf => "center-half"@,
        MacosWindowCommand::LeftHalf => "left-half"@,
        MacosWindowCommand::RightHalf => "right-half"@,
        MacosWindowCommand::TopHalf => "top-half"@,
        MacosWindowCommand::BottomHalf => "bottom-half"@,
        MacosWindowCommand::FirstThird => "first-third"@,
        MacosWindowCommand::CenterThird => "center-third"@,
        MacosWindowCommand::LastThird => "last-third"@,
        MacosWindowCommand::FirstTwoThirds => "first-two-thirds"@,
        MacosWindowCommand::CenterTwoThirds => "center-two-thirds"@,
        MacosWindowCommand::LastTwoThirds => "last-two-thirds"@,
        MacosWindowCommand::FirstThreeFourths => "first-three-fourths"@,
        MacosWindowCommand::CenterThreeFourths => "center-three-fourths"@,
        MacosWindowCommand::LastThreeFourths => "last-three-fourths"@,
        MacosWindowCommand::TopThird => "top-third"@,
        MacosWindowCommand::MiddleThird => "middle-third"@,
        MacosWindowCommand::BottomThird => "bottom-third"@,
        MacosWindowCommand::TopTwoThirds => "top-two-thirds"@,
        MacosWindowCommand::BottomTwoThirds => "bottom-two-thirds"@,
        MacosWindowCommand::TopFirstFourth => "top-first-fourth"@,
        MacosWindowCommand::TopSecondFourth => "top-second-fourth"@,
        MacosWindowCommand::TopThirdFourth => "top-third-fourth"@,
        MacosWindowCommand::TopLastFourth => "top-last-fourth"@,
        MacosWindowCommand::TopThreeFourths => "top-three-fourths"@,
        MacosWindowCommand::BottomThreeFourths => "bottom-three-fourths"@,
        MacosWindowCommand::TopCenterTwoThirds => "top-center-two-thirds"@,
        MacosWindowCommand::BottomCenterTwoThirds => "bottom-center-two-thirds"@,
        MacosWindowCommand::FirstFourth => "first-fourth"@,
        MacosWindowCommand::SecondFourth => "second-fourth"@,
        MacosWindowCommand::ThirdFourth => "third-fourth"@,
        MacosWindowCommand::LastFourth => "last-fourth"@,
        MacosWindowCommand::TopLeftSixth => "top-left-sixth"@,
        MacosWindowCommand::TopCenterSixth => "top-center-sixth"@,
        MacosWindowCommand::TopRightSixth => "top-right-sixth"@,
        MacosWindowCommand::BottomLeftSixth => "bottom-left-sixth"@,
        MacosWindowCommand::BottomCenterSixth => "bottom-center-sixth"@,
        MacosWindowCommand::BottomRightSixth => "bottom-right-sixth"@,
        MacosWindowCommand::MoveLeft => "move-left"@,
        MacosWindowCommand::MoveRight => "move-right"@,
        MacosWindowCommand::MoveTop => "move-top"@,
        MacosWindowCommand::MoveBottom => "move-bottom"@,
        MacosWindowCommand::MovePreviousSpace => "move-to-previous-space"@,
        MacosWindowCommand::MoveNextSpace => "move-to-next-space"@,
        MacosWindowCommand::SwitchPreviousSpace => "switch-to-previous-space"@,
        MacosWindowCommand::SwitchNextSpace => "switch-to-next-space"@,
        MacosWindowCommand::MovePreviousDisplay => "move-to-previous-display"@,
        MacosWindowCommand::MoveNextDisplay => "move-to-next-display"@,
        MacosWindowCommand::TopLeftQuarter => "top-left-quarter"@,
        MacosWindowCommand::TopRightQuarter => "top-right-quarter"@,
        MacosWindowCommand::BottomLeftQuarter => "bottom-left-quarter"@,
        MacosWindowCommand::BottomRightQuarter => "bottom-right-quarter"@,
        MacosWindowCommand::MakeSmaller => "make-smaller"@,
        MacosWindowCommand::MakeLarger => "make-larger"@,
        MacosWindowCommand::ToggleFullscreen => "toggle-fullscreen"@,
    }
}

/// A second word for the commands that switch to a neighbouring space.
pub open spec fn command_alias(command: MacosWindowCommand) -> Option<Seq<char>> {
    match command {
        MacosWindowCommand::SwitchPreviousSpace => Some("switch-to-left-space"@),
        MacosWindowCommand::SwitchNextSpace => Some("switch-to-right-space"@),
        _ => None,
    }
}

/// Whether `word` names `command`.
pub open spec fn names_command(word: Seq<char>, command: MacosWindowCommand) -> bool {
    word == command_name(command) || Some(word) == command_alias(command)
}

/// The command that `word` names.
pub open spec fn command_of(word: Seq<char>) -> Option<MacosWindowCommand> {
    if exists|command: MacosWindowCommand| #[trigger] names_command(word, command) {
        Some(choose|command: MacosWindowCommand| #[trigger] names_command(word, command))
    } else {
        None
    }
}

/// No word names two commands.
pub proof fn law_names_are_unambiguous(
    word: Seq<char>,
    first: MacosWindowCommand,
    second: MacosWindowCommand,
)
    requires
        names_command(word, first),
        names_command(word, second),
    ensures
        first == second,
{
    // Length and the characters at three places tell the words apart.
    reveal_strlit("maximize");
    assert("maximize"@.len() == 8 && "maximize"@[0] == 'm' && "maximize"@[7] == 'e');
    reveal_strlit("restore");
    assert("restore"@.len() == 7 && "restore"@[0] == 'r');
    reveal_strlit("maximize-height");
    assert("maximize-height"@.len() == 15 && "maximize-height"@[0] == 'm' && "maximize-height"@[7] == 'e' && "maximize-height"@[10] == 'e');
    reveal_strlit("maximize-width");
    assert("maximize-width"@.len() == 14 && "maximize-width"@[0] == 'm' && "maximize-width"@[7] == 'e' && "maximize-width"@[10] == 'i');
    reveal_strlit("almost-maximize");
    assert("almost-maximize"@.len() == 15 && "almost-maximize"@[0] == 'a' && "almost-maximize"@[7] == 'm' && "almost-maximize"@[10] == 'i');
    reveal_strlit("reasonable-size");
    assert("reasonable-size"@.len() == 15 && "reasonable-size"@[0] == 'r' && "reasonable-size"@[7] == 'b' && "reasonable-size"@[10] == '-');
    reveal_strlit("center");
    assert("center"@.len() == 6 && "center"@[0] == 'c');
    reveal_strlit("center-half");
    assert("center-half"@.len() == 11 && "center-half"@[0] == 'c' && "center-half"@[7] == 'h' && "center-half"@[10] == 'f');
    reveal_strlit("left-half");
    assert("left-half"@.len() == 9 && "left-half"@[0] == 'l' && "left-half"@[7] == 'l');
    reveal_strlit("right-half");
    assert("right-half"@.len() == 10 && "right-half"@[0] == 'r' && "right-half"@[7] == 'a');
    reveal_strlit("top-half");
    assert("top-half"@.len() == 8 && "top-half"@[0] == 't' && "top-half"@[7] == 'f');
    reveal_strlit("bottom-half");
    assert("bottom-half"@.len() == 11 && "bottom-half"@[0] == 'b' && "bottom-half"@[7] == 'h' && "bottom-half"@[10] == 'f');
    reveal_strlit("first-third");
    assert("first-third"@.len() == 11 && "first-third"@[0] == 'f' && "first-third"@[7] == 'h' && "first-third"@[10] == 'd');
    reveal_strlit("center-third");
    assert("center-third"@.len() == 12 && "center-third"@[0] == 'c' && "center-third"@[7] == 't' && "center-third"@[10] == 'r');
    reveal_strlit("last-third");
    assert("last-third"@.len() == 10 && "last-third"@[0] == 'l' && "last-third"@[7] == 'i');
    reveal_strlit("first-two-thirds");
    assert("first-two-thirds"@.len() == 16 && "first-two-thirds"@[0] == 'f' && "first-two-thirds"@[7] == 'w' && "first-two-thirds"@[10] == 't');
    reveal_strlit("center-two-thirds");
    assert("center-two-thirds"@.len() == 17 && "center-two-thirds"@[0] == 'c' && "center-two-thirds"@[7] == 't' && "center-two-thirds"@[10] == '-');
    reveal_strlit("last-two-thirds");
    assert("last-two-thirds"@.len() == 15 && "last-two-thirds"@[0] == 'l' && "last-two-thirds"@[7] == 'o' && "last-two-thirds"@[10] == 'h');
    reveal_strlit("first-three-fourths");
    assert("first-three-fourths"@.len() == 19 && "first-three-fourths"@[0] == 'f' && "first-three-fourths"@[7] == 'h' && "first-three-fourths"@[10] == 'e');
    reveal_strlit("center-three-fourths");
    assert("center-three-fourths"@.len() == 20 && "center-three-fourths"@[0] == 'c' && "center-three-fourths"@[7] == 't' && "center-three-fourths"@[10] == 'e');
    reveal_strlit("last-three-fourths");
    assert("last-three-fourths"@.len() == 18 && "last-three-fourths"@[0] == 'l' && "last-three-fourths"@[7] == 'r' && "last-three-fourths"@[10] == '-');
    reveal_strlit("top-third");
    assert("top-third"@.len() == 9 && "top-third"@[0] == 't' && "top-third"@[7] == 'r');
    reveal_strlit("middle-third");
    assert("middle-third"@.len() == 12 && "middle-third"@[0] == 'm' && "middle-third"@[7] == 't' && "middle-third"@[10] == 'r');
    reveal_strlit("bottom-third");
    assert("bottom-third"@.len() == 12 && "bottom-third"@[0] == 'b' && "bottom-third"@[7] == 't' && "bottom-third"@[10] == 'r');
    reveal_strlit("top-two-thirds");
    assert("top-two-thirds"@.len() == 14 && "top-two-thirds"@[0] == 't' && "top-two-thirds"@[7] == '-' && "top-two-thirds"@[10] == 'i');
    reveal_strlit("bottom-two-thirds");
    assert("bottom-two-thirds"@.len() == 17 && "bottom-two-thirds"@[0] == 'b' && "bottom-two-thirds"@[7] == 't' && "bottom-two-thirds"@[10] == '-');
    reveal_strlit("top-first-fourth");
    assert("top-first-fourth"@.len() == 16 && "top-first-fourth"@[0] == 't' && "top-first-fourth"@[7] == 's' && "top-first-fourth"@[10] == 'f');
    reveal_strlit("top-second-fourth");
    assert("top-second-fourth"@.len() == 17 && "top-second-fourth"@[0] == 't' && "top-second-fourth"@[7] == 'o' && "top-second-fourth"@[10] == '-');
    reveal_strlit("top-third-fourth");
    assert("top-third-fourth"@.len() == 16 && "top-third-fourth"@[0] == 't' && "top-third-fourth"@[7] == 'r' && "top-third-fourth"@[10] == 'f');
    reveal_strlit("top-last-fourth");
    assert("top-last-fourth"@.len() == 15 && "top-last-fourth"@[0] == 't' && "top-last-fourth"@[7] == 't' && "top-last-fourth"@[10] == 'o');
    reveal_strlit("top-three-fourths");
    assert("top-three-fourths"@.len() == 17 && "top-three-fourths"@[0] == 't' && "top-three-fourths"@[7] == 'e' && "top-three-fourths"@[10] == 'f');
    reveal_strlit("bottom-three-fourths");
    assert("bottom-three-fourths"@.len() == 20 && "bottom-three-fourths"@[0] == 'b' && "bottom-three-fourths"@[7] == 't' && "bottom-three-fourths"@[10] == 'e');
    reveal_strlit("top-center-two-thirds");
    assert("top-center-two-thirds"@.len() == 21 && "top-center-two-thirds"@[0] == 't' && "top-center-two-thirds"@[7] == 't' && "top-center-two-thirds"@[10] == '-');
    reveal_strlit("bottom-center-two-thirds");
    assert("bottom-center-two-thirds"@.len() == 24 && "bottom-center-two-thirds"@[0] == 'b' && "bottom-center-two-thirds"@[7] == 'c' && "bottom-center-two-thirds"@[10] == 't');
    reveal_strlit("first-fourth");
    assert("first-fourth"@.len() == 12 && "first-fourth"@[0] == 'f' && "first-fourth"@[7] == 'o' && "first-fourth"@[10] == 't');
    reveal_strlit("second-fourth");
    assert("second-fourth"@.len() == 13 && "second-fourth"@[0] == 's' && "second-fourth"@[7] == 'f' && "second-fourth"@[10] == 'r');
    reveal_strlit("third-fourth");
    assert("third-fourth"@.len() == 12 && "third-fourth"@[0] == 't' && "third-fourth"@[7] == 'o' && "third-fourth"@[10] == 't');
    reveal_strlit("last-fourth");
    assert("last-fourth"@.len() == 11 && "last-fourth"@[0] == 'l' && "last-fourth"@[7] == 'u' && "last-fourth"@[10] == 'h');
    reveal_strlit("top-left-sixth");
    assert("top-left-sixth"@.len() == 14 && "top-left-sixth"@[0] == 't' && "top-left-sixth"@[7] == 't' && "top-left-sixth"@[10] == 'i');
    reveal_strlit("top-center-sixth");
    assert("top-center-sixth"@.len() == 16 && "top-center-sixth"@[0] == 't' && "top-center-sixth"@[7] == 't' && "top-center-sixth"@[10] == '-');
    reveal_strlit("top-right-sixth");
    assert("top-right-sixth"@.len() == 15 && "top-right-sixth"@[0] == 't' && "top-right-sixth"@[7] == 'h' && "top-right-sixth"@[10] == 's');
    reveal_strlit("bottom-left-sixth");
    assert("bottom-left-sixth"@.len() == 17 && "bottom-left-sixth"@[0] == 'b' && "bottom-left-sixth"@[7] == 'l' && "bottom-left-sixth"@[10] == 't');
    reveal_strlit("bottom-center-sixth");
    assert("bottom-center-sixth"@.len() == 19 && "bottom-center-sixth"@[0] == 'b' && "bottom-center-sixth"@[7] == 'c' && "bottom-center-sixth"@[10] == 't');
    reveal_strlit("bottom-right-sixth");
    assert("bottom-right-sixth"@.len() == 18 && "bottom-right-sixth"@[0] == 'b' && "bottom-right-sixth"@[7] == 'r' && "bottom-right-sixth"@[10] == 'h');
    reveal_strlit("move-left");
    assert("move-left"@.len() == 9 && "move-left"@[0] == 'm' && "move-left"@[7] == 'f');
    reveal_strlit("move-right");
    assert("move-right"@.len() == 10 && "move-right"@[0] == 'm' && "move-right"@[7] == 'g');
    reveal_strlit("move-top");
    assert("move-top"@.len() == 8 && "move-top"@[0] == 'm' && "move-top"@[7] == 'p');
    reveal_strlit("move-bottom");
    assert("move-bottom"@.len() == 11 && "move-bottom"@[0] == 'm' && "move-bottom"@[7] == 't' && "move-bottom"@[10] == 'm');
    reveal_strlit("move-to-previous-space");
    assert("move-to-previous-space"@.len() == 22 && "move-to-previous-space"@[0] == 'm' && "move-to-previous-space"@[7] == '-' && "move-to-previous-space"@[10] == 'e');
    reveal_strlit("move-to-next-space");
    assert("move-to-next-space"@.len() == 18 && "move-to-next-space"@[0] == 'm' && "move-to-next-space"@[7] == '-' && "move-to-next-space"@[10] == 'x');
    reveal_strlit("switch-to-previous-space");
    assert("switch-to-previous-space"@.len() == 24 && "switch-to-previous-space"@[0] == 's' && "switch-to-previous-space"@[7] == 't' && "switch-to-previous-space"@[10] == 'p');
    reveal_strlit("switch-to-left-space");
    assert("switch-to-left-space"@.len() == 20 && "switch-to-left-space"@[0] == 's' && "switch-to-left-space"@[7] == 't' && "switch-to-left-space"@[10] == 'l');
    reveal_strlit("switch-to-next-space");
    assert("switch-to-next-space"@.len() == 20 && "switch-to-next-space"@[0] == 's' && "switch-to-next-space"@[7] == 't' && "switch-to-next-space"@[10] == 'n');
    reveal_strlit("switch-to-right-space");
    assert("switch-to-right-space"@.len() == 21 && "switch-to-right-space"@[0] == 's' && "switch-to-right-space"@[7] == 't' && "switch-to-right-space"@[10] == 'r');
    reveal_strlit("move-to-previous-display");
    assert("move-to-previous-display"@.len() == 24 && "move-to-previous-display"@[0] == 'm' && "move-to-previous-display"@[7] == '-' && "move-to-previous-display"@[10] == 'e');
    reveal_strlit("move-to-next-display");
    assert("move-to-next-display"@.len() == 20 && "move-to-next-display"@[0] == 'm' && "move-to-next-display"@[7] == '-' && "move-to-next-display"@[10] == 'x');
    reveal_strlit("top-left-quarter");
    assert("top-left-quarter"@.len() == 16 && "top-left-quarter"@[0] == 't' && "top-left-quarter"@[7] == 't' && "top-left-quarter"@[10] == 'u');
    reveal_strlit("top-right-quarter");
    assert("top-right-quarter"@.len() == 17 && "top-right-quarter"@[0] == 't' && "top-right-quarter"@[7] == 'h' && "top-right-quarter"@[10] == 'q');
    reveal_strlit("bottom-left-quarter");
    assert("bottom-left-quarter"@.len() == 19 && "bottom-left-quarter"@[0] == 'b' && "bottom-left-quarter"@[7] == 'l' && "bottom-left-quarter"@[10] == 't');
    reveal_strlit("bottom-right-quarter");
    assert("bottom-right-quarter"@.len() == 20 && "bottom-right-quarter"@[0] == 'b' && "bottom-right-quarter"@[7] == 'r' && "bottom-right-quarter"@[10] == 'h');
    reveal_strlit("make-smaller");
    assert("make-smaller"@.len() == 12 && "make-smaller"@[0] == 'm' && "make-smaller"@[7] == 'a' && "make-smaller"@[10] == 'e');
    reveal_strlit("make-larger");
    assert("make-larger"@.len() == 11 && "make-larger"@[0] == 'm' && "make-larger"@[7] == 'r' && "make-larger"@[10] == 'r');
    reveal_strlit("toggle-fullscreen");
    assert("toggle-fullscreen"@.len() == 17 && "toggle-fullscreen"@[0] == 't' && "toggle-fullscreen"@[7] == 'f' && "toggle-fullscreen"@[10] == 'l');
}

/// Beside its name, only the two commands that switch the space have one more word each.
pub proof fn law_words_beside_the_names(word: Seq<char>, command: MacosWindowCommand)
    requires
        names_command(word, command),
        word != command_name(command),
    ensures
        (command == MacosWindowCommand::SwitchPreviousSpace && word == "switch-to-left-space"@)
            || (command == MacosWindowCommand::SwitchNextSpace && word
            == "switch-to-right-space"@),
{
}

/// Only a word that names a command is understood.
pub proof fn law_only_names_are_understood(word: Seq<char>)
    ensures
        command_of(word) matches Some(command) ==> word == command_name(command) || word
            == "switch-to-left-space"@ || word == "switch-to-right-space"@,
        command_of(word) is None ==> forall|command: MacosWindowCommand| #[trigger]
            command_name(command) != word,
{
    if command_of(word) is None {
        assert forall|command: MacosWindowCommand| #[trigger] command_name(command) != word by {
            assert(!names_command(word, command));
        }
    }
}

/// Each command is understood by its name, and by its second name where it has one.
pub proof fn law_names_are_understood(command: MacosWindowCommand)
    ensures
        command_of(command_name(command)) == Some(command),
        command_alias(command) matches Some(alias) ==> command_of(alias) == Some(command),
{
    let name = command_name(command);
    assert(names_command(name, command));
    law_names_are_unambiguous(name, command, command_of(name)->0);
    if let Some(alias) = command_alias(command) {
        assert(names_command(alias, command));
        law_names_are_unambiguous(alias, command, command_of(alias)->0);
    }
}

/// Reads the word for a command.
pub fn parse_command(command: &str) -> (parsed: Option<MacosWindowCommand>)
    ensures
        parsed == command_of(command@),
        forall|candidate: MacosWindowCommand|
            #[trigger] names_command(command@, candidate) <==> parsed == Some(candidate),
{
    let parsed = find_command(command);
    proof {
        if let Some(found) = parsed {
            assert forall|candidate: MacosWindowCommand| #[trigger]
                names_command(command@, candidate) implies candidate == found by {
                law_names_are_unambiguous(command@, candidate, found);
            }
        }
    }
    parsed
}

/// Tries the words one after the other.
fn find_command(word: &str) -> (found: Option<MacosWindowCommand>)
    ensures
        found matches Some(command) ==> names_command(word@, command),
        found is None ==> forall|command: MacosWindowCommand| !names_command(word@, command),
{
    if same_text(word, "maximize") {
        Some(MacosWindowCommand::Maximize)
    } else if same_text(word, "restore") {
        Some(MacosWindowCommand::Restore)
    } else if same_text(word, "maximize-height") {
        Some(MacosWindowCommand::MaximizeHeight)
    } else if same_text(word, "maximize-width") {
        Some(MacosWindowCommand::MaximizeWidth)
    } else if same_text(word, "almost-maximize") {
        Some(MacosWindowCommand::AlmostMaximize)
    } else if same_text(word, "reasonable-size") {
        Some(MacosWindowCommand::ReasonableSize)
    } else if same_text(word, "center") {
        Some(MacosWindowCommand::Center)
    } else if same_text(word, "center-half") {
        Some(MacosWindowCommand::CenterHalf)
    } else if same_text(word, "left-half") {
        Some(MacosWindowCommand::LeftHalf)
    } else if same_text(word, "right-half") {
        Some(MacosWindowCommand::RightHalf)
    } else if same_text(word, "top-half") {
        Some(MacosWindowCommand::TopHalf)
    } else if same_text(word, "bottom-half") {
        Some(MacosWindowCommand::BottomHalf)
    } else if same_text(word, "first-third") {
        Some(MacosWindowCommand::FirstThird)
    } else if same_text(word, "center-third") {
        Some(MacosWindowCommand::CenterThird)
    } else if same_text(word, "last-third") {
        Some(MacosWindowCommand::LastThird)
    } else if same_text(word, "first-two-thirds") {
        Some(MacosWindowCommand::FirstTwoThirds)
    } else if same_text(word, "center-two-thirds") {
        Some(MacosWindowCommand::CenterTwoThirds)
    } else if same_text(word, "last-two-thirds") {
        Some(MacosWindowCommand::LastTwoThirds)
    } else if same_text(word, "first-three-fourths") {
        Some(MacosWindowCommand::FirstThreeFourths)
    } else if same_text(word, "center-three-fourths") {
        Some(MacosWindowCommand::CenterThreeFourths)
    } else if same_text(word, "last-three-fourths") {
        Some(MacosWindowCommand::LastThreeFourths)
    } else if same_text(word, "top-third") {
        Some(MacosWindowCommand::TopThird)
    } else if same_text(word, "middle-third") {
        Some(MacosWindowCommand::MiddleThird)
    } else if same_text(word, "bottom-third") {
        Some(MacosWindowCommand::BottomThird)
    } else if same_text(word, "top-two-thirds") {
        Some(MacosWindowCommand::TopTwoThirds)
    } else if same_text(word, "bottom-two-thirds") {
        Some(MacosWindowCommand::BottomTwoThirds)
    } else if same_text(word, "top-first-fourth") {
        Some(MacosWindowCommand::TopFirstFourth)
    } else if same_text(word, "top-second-fourth") {
        Some(MacosWindowCommand::TopSecondFourth)
    } else if same_text(word, "top-third-fourth") {
        Some(MacosWindowCommand::TopThirdFourth)
    } else if same_text(word, "top-last-fourth") {
        Some(MacosWindowCommand::TopLastFourth)
    } else if same_text(word, "top-three-fourths") {
        Some(MacosWindowCommand::TopThreeFourths)
    } else if same_text(word, "bottom-three-fourths") {
        Some(MacosWindowCommand::BottomThreeFourths)
    } else if same_text(word, "top-center-two-thirds") {
        Some(MacosWindowCommand::TopCenterTwoThirds)
    } else if same_text(word, "bottom-center-two-thirds") {
        Some(MacosWindowCommand::BottomCenterTwoThirds)
    } else if same_text(word, "first-fourth") {
        Some(MacosWindowCommand::FirstFourth)
    } else if same_text(word, "second-fourth") {
        Some(MacosWindowCommand::SecondFourth)
    } else if same_text(word, "third-fourth") {
        Some(MacosWindowCommand::ThirdFourth)
    } else if same_text(word, "last-fourth") {
        Some(MacosWindowCommand::LastFourth)
    } else if same_text(word, "top-left-sixth") {
        Some(MacosWindowCommand::TopLeftSixth)
    } else if same_text(word, "top-center-sixth") {
        Some(MacosWindowCommand::TopCenterSixth)
    } else if same_text(word, "top-right-sixth") {
        Some(MacosWindowCommand::TopRightSixth)
    } else if same_text(word, "bottom-left-sixth") {
        Some(MacosWindowCommand::BottomLeftSixth)
    } else if same_text(word, "bottom-center-sixth") {
        Some(MacosWindowCommand::BottomCenterSixth)
    } else if same_text(word, "bottom-right-sixth") {
        Some(MacosWindowCommand::BottomRightSixth)
    } else if same_text(word, "move-left") {
        Some(MacosWindowCommand::MoveLeft)
    } else if same_text(word, "move-right") {
        Some(MacosWindowCommand::MoveRight)
    } else if same_text(word, "move-top") {
        Some(MacosWindowCommand::MoveTop)
    } else if same_text(word, "move-bottom") {
        Some(MacosWindowCommand::MoveBottom)
    } else if same_text(word, "move-to-previous-space") {
        Some(MacosWindowCommand::MovePreviousSpace)
    } else if same_text(word, "move-to-next-space") {
        Some(MacosWindowCommand::MoveNextSpace)
    } else if same_text(word, "switch-to-previous-space") || same_text(word, "switch-to-left-space") {
        Some(MacosWindowCommand::SwitchPreviousSpace)
    } else if same_text(word, "switch-to-next-space") || same_text(word, "switch-to-right-space") {
        Some(MacosWindowCommand::SwitchNextSpace)
    } else if same_text(word, "move-to-previous-display") {
        Some(MacosWindowCommand::MovePreviousDisplay)
    } else if same_text(word, "move-to-next-display") {
        Some(MacosWindowCommand::MoveNextDisplay)
    } else if same_text(word, "top-left-quarter") {
        Some(MacosWindowCommand::TopLeftQuarter)
    } else if same_text(word, "top-right-quarter") {
        Some(MacosWindowCommand::TopRightQuarter)
    } else if same_text(word, "bottom-left-quarter") {
        Some(MacosWindowCommand::BottomLeftQuarter)
    } else if same_text(word, "bottom-right-quarter") {
        Some(MacosWindowCommand::BottomRightQuarter)
    } else if same_text(word, "make-smaller") {
        Some(MacosWindowCommand::MakeSmaller)
    } else if same_text(word, "make-larger") {
        Some(MacosWindowCommand::MakeLarger)
    } else if same_text(word, "toggle-fullscreen") {
        Some(MacosWindowCommand::ToggleFullscreen)
    } else {
        None
    }
}

} // verus!
