use macos_window::action::{MacosWindowAction, MacosWindowCommand, MacosWindowFrame};
use macos_window::command::parse_command;
use macos_window::parse::{parse_basis_points, parse_frame_cycle, parse_macos_window, ParseError};
use macos_window::sexpr::{ParserState, SExpr, Span, Variable};

fn span(start: usize) -> Span {
    Span { start, end: start + 1 }
}

fn atom(text: &str, start: usize) -> SExpr {
    SExpr::Atom { text: text.to_string(), span: span(start) }
}

fn list(items: Vec<SExpr>, start: usize) -> SExpr {
    SExpr::List { items, span: span(start) }
}

fn frame_expr(numbers: [&str; 4], start: usize) -> SExpr {
    list(numbers.iter().map(|n| atom(n, start)).collect(), start)
}

fn no_vars() -> ParserState {
    ParserState::new(Vec::new()).unwrap()
}

fn vars(definitions: Vec<(&str, SExpr)>) -> ParserState {
    ParserState::new(
        definitions
            .into_iter()
            .map(|(name, value)| Variable { name: name.to_string(), value })
            .collect(),
    )
    .unwrap()
}

fn command(parsed: Result<MacosWindowAction, ParseError>) -> MacosWindowCommand {
    match parsed {
        Ok(MacosWindowAction::Command(command)) => command,
        other => panic!("no command: {:?}", other),
    }
}

fn frames(parsed: Result<MacosWindowAction, ParseError>) -> Vec<MacosWindowFrame> {
    match parsed {
        Ok(MacosWindowAction::FrameCycle(frames)) => frames,
        other => panic!("no frames: {:?}", other),
    }
}

fn error(parsed: Result<MacosWindowAction, ParseError>) -> (String, Option<Span>) {
    let error = parsed.unwrap_err();
    (error.message, error.span)
}

#[test]
fn every_command_is_read_by_its_names() {
    let words = [
        ("maximize", MacosWindowCommand::Maximize),
        ("restore", MacosWindowCommand::Restore),
        ("maximize-height", MacosWindowCommand::MaximizeHeight),
        ("maximize-width", MacosWindowCommand::MaximizeWidth),
        ("almost-maximize", MacosWindowCommand::AlmostMaximize),
        ("reasonable-size", MacosWindowCommand::ReasonableSize),
        ("center", MacosWindowCommand::Center),
        ("center-half", MacosWindowCommand::CenterHalf),
        ("left-half", MacosWindowCommand::LeftHalf),
        ("right-half", MacosWindowCommand::RightHalf),
        ("top-half", MacosWindowCommand::TopHalf),
        ("bottom-half", MacosWindowCommand::BottomHalf),
        ("first-third", MacosWindowCommand::FirstThird),
        ("center-third", MacosWindowCommand::CenterThird),
        ("last-third", MacosWindowCommand::LastThird),
        ("first-two-thirds", MacosWindowCommand::FirstTwoThirds),
        ("center-two-thirds", MacosWindowCommand::CenterTwoThirds),
        ("last-two-thirds", MacosWindowCommand::LastTwoThirds),
        ("first-three-fourths", MacosWindowCommand::FirstThreeFourths),
        ("center-three-fourths", MacosWindowCommand::CenterThreeFourths),
        ("last-three-fourths", MacosWindowCommand::LastThreeFourths),
        ("top-third", MacosWindowCommand::TopThird),
        ("middle-third", MacosWindowCommand::MiddleThird),
        ("bottom-third", MacosWindowCommand::BottomThird),
        ("top-two-thirds", MacosWindowCommand::TopTwoThirds),
        ("bottom-two-thirds", MacosWindowCommand::BottomTwoThirds),
        ("top-first-fourth", MacosWindowCommand::TopFirstFourth),
        ("top-second-fourth", MacosWindowCommand::TopSecondFourth),
        ("top-third-fourth", MacosWindowCommand::TopThirdFourth),
        ("top-last-fourth", MacosWindowCommand::TopLastFourth),
        ("top-three-fourths", MacosWindowCommand::TopThreeFourths),
        ("bottom-three-fourths", MacosWindowCommand::BottomThreeFourths),
        ("top-center-two-thirds", MacosWindowCommand::TopCenterTwoThirds),
        ("bottom-center-two-thirds", MacosWindowCommand::BottomCenterTwoThirds),
        ("first-fourth", MacosWindowCommand::FirstFourth),
        ("second-fourth", MacosWindowCommand::SecondFourth),
        ("third-fourth", MacosWindowCommand::ThirdFourth),
        ("last-fourth", MacosWindowCommand::LastFourth),
        ("top-left-sixth", MacosWindowCommand::TopLeftSixth),
        ("top-center-sixth", MacosWindowCommand::TopCenterSixth),
        ("top-right-sixth", MacosWindowCommand::TopRightSixth),
        ("bottom-left-sixth", MacosWindowCommand::BottomLeftSixth),
        ("bottom-center-sixth", MacosWindowCommand::BottomCenterSixth),
        ("bottom-right-sixth", MacosWindowCommand::BottomRightSixth),
        ("move-left", MacosWindowCommand::MoveLeft),
        ("move-right", MacosWindowCommand::MoveRight),
        ("move-top", MacosWindowCommand::MoveTop),
        ("move-bottom", MacosWindowCommand::MoveBottom),
        ("move-to-previous-space", MacosWindowCommand::MovePreviousSpace),
        ("move-to-next-space", MacosWindowCommand::MoveNextSpace),
        ("switch-to-previous-space", MacosWindowCommand::SwitchPreviousSpace),
        ("switch-to-left-space", MacosWindowCommand::SwitchPreviousSpace),
        ("switch-to-next-space", MacosWindowCommand::SwitchNextSpace),
        ("switch-to-right-space", MacosWindowCommand::SwitchNextSpace),
        ("move-to-previous-display", MacosWindowCommand::MovePreviousDisplay),
        ("move-to-next-display", MacosWindowCommand::MoveNextDisplay),
        ("top-left-quarter", MacosWindowCommand::TopLeftQuarter),
        ("top-right-quarter", MacosWindowCommand::TopRightQuarter),
        ("bottom-left-quarter", MacosWindowCommand::BottomLeftQuarter),
        ("bottom-right-quarter", MacosWindowCommand::BottomRightQuarter),
        ("make-smaller", MacosWindowCommand::MakeSmaller),
        ("make-larger", MacosWindowCommand::MakeLarger),
        ("toggle-fullscreen", MacosWindowCommand::ToggleFullscreen),
    ];
    assert_eq!(words.len(), 63);
    for (word, expected) in words {
        assert_eq!(parse_command(word), Some(expected));
        let quoted = format!("\"{}\"", word);
        assert_eq!(command(parse_macos_window(&[atom(word, 0)], &no_vars())), expected);
        assert_eq!(command(parse_macos_window(&[atom(&quoted, 0)], &no_vars())), expected);
    }
}

#[test]
fn both_words_switch_the_space() {
    assert_eq!(parse_command("switch-to-previous-space"), parse_command("switch-to-left-space"));
    assert_eq!(parse_command("switch-to-next-space"), parse_command("switch-to-right-space"));
}

#[test]
fn other_words_are_no_commands() {
    for word in ["", "Maximize", "maximize ", "maximise", "left", "left-half-"] {
        assert_eq!(parse_command(word), None);
    }
}

#[test]
fn unknown_command_is_told() {
    assert_eq!(
        error(parse_macos_window(&[atom("\"fly\"", 7)], &no_vars())),
        ("unknown macos-window command: fly".to_string(), Some(span(7)))
    );
}

#[test]
fn no_parameters_are_refused() {
    assert_eq!(
        error(parse_macos_window(&[], &no_vars())),
        (
            "macos-window expects a command name or at least one frame: (x y width height)"
                .to_string(),
            None
        )
    );
}

#[test]
fn second_command_is_refused() {
    let params = [atom("maximize", 0), atom("center", 1), list(Vec::new(), 2)];
    assert_eq!(
        error(parse_macos_window(&params, &no_vars())),
        (
            "macos-window command form expects exactly one command name, found 3 items".to_string(),
            None
        )
    );
    let many: Vec<SExpr> = (0..12).map(|i| atom("center", i)).collect();
    assert_eq!(
        error(parse_macos_window(&many, &no_vars())).0,
        "macos-window command form expects exactly one command name, found 12 items"
    );
}

#[test]
fn frames_are_read_in_order() {
    let params = [
        frame_expr(["0", "0", "5000", "10000"], 0),
        frame_expr(["-100", "+20", "\"1\"", "2147483647"], 1),
    ];
    let expected = vec![
        MacosWindowFrame { x: 0, y: 0, width: 5000, height: 10000 },
        MacosWindowFrame { x: -100, y: 20, width: 1, height: 2147483647 },
    ];
    assert_eq!(frames(parse_macos_window(&params, &no_vars())), expected);
    assert_eq!(frames(parse_frame_cycle(&params, &no_vars())), expected);
}

#[test]
fn empty_cycle_has_no_frames() {
    assert_eq!(frames(parse_frame_cycle(&[], &no_vars())), Vec::new());
}

#[test]
fn word_among_frames_is_refused() {
    let params = [frame_expr(["0", "0", "1", "1"], 0), atom("maximize", 4)];
    assert_eq!(
        error(parse_macos_window(&params, &no_vars())),
        (
            "macos-window frame cycles must contain only lists: (x y width height)".to_string(),
            Some(span(4))
        )
    );
}

#[test]
fn frames_have_four_numbers() {
    for count in [0, 3, 5] {
        let items = (0..count).map(|_| atom("1", 9)).collect();
        assert_eq!(
            error(parse_macos_window(&[list(items, 3)], &no_vars())),
            (
                "macos-window frames must have exactly four numbers".to_string(),
                Some(span(3))
            )
        );
    }
}

#[test]
fn frames_have_width_and_height() {
    for numbers in [["0", "0", "0", "1"], ["0", "0", "1", "0"], ["0", "0", "-1", "-1"]] {
        assert_eq!(
            error(parse_macos_window(&[frame_expr(numbers, 5)], &no_vars())),
            (
                "macos-window width and height must be greater than 0".to_string(),
                Some(span(5))
            )
        );
    }
}

#[test]
fn first_bad_frame_is_told() {
    let params = [
        frame_expr(["0", "0", "1", "1"], 0),
        frame_expr(["0", "0", "0", "1"], 1),
        atom("center", 2),
    ];
    assert_eq!(error(parse_macos_window(&params, &no_vars())).1, Some(span(1)));
}

#[test]
fn first_bad_number_is_told() {
    let items = vec![atom("1", 1), list(Vec::new(), 2), atom("wide", 3), atom("4", 4)];
    assert_eq!(
        error(parse_macos_window(&[list(items, 0)], &no_vars())),
        ("macos-window y must be a number".to_string(), Some(span(2)))
    );
}

#[test]
fn numbers_are_signed_integers() {
    let labels = ["x", "y", "width", "height"];
    for bad in 0..4 {
        let mut numbers = ["1"; 4];
        numbers[bad] = "1.5";
        assert_eq!(
            error(parse_macos_window(&[frame_expr(numbers, 0)], &no_vars())),
            (
                format!(
                    "macos-window {} must be a signed integer basis-point value",
                    labels[bad]
                ),
                None
            )
        );
    }
}

#[test]
fn basis_points_are_read() {
    let s = no_vars();
    assert_eq!(parse_basis_points(&atom("-2147483648", 0), &s, "x").unwrap(), -2147483648);
    let refused = parse_basis_points(&atom("2147483648", 0), &s, "size").unwrap_err();
    assert_eq!(
        refused.message,
        "macos-window size must be a signed integer basis-point value"
    );
    assert_eq!(refused.span, None);
    let refused = parse_basis_points(&list(Vec::new(), 6), &s, "size").unwrap_err();
    assert_eq!(refused.message, "macos-window size must be a number");
    assert_eq!(refused.span, Some(span(6)));
}

#[test]
fn variables_stand_for_their_values() {
    let s = vars(vec![
        ("half", atom("5000", 100)),
        ("also-half", atom("$half", 101)),
        ("whole", frame_expr(["0", "0", "$also-half", "10000"], 102)),
        ("cmd", atom("\"maximize\"", 103)),
    ]);
    assert_eq!(
        command(parse_macos_window(&[atom("$cmd", 0)], &s)),
        MacosWindowCommand::Maximize
    );
    assert_eq!(
        frames(parse_macos_window(&[atom("$whole", 0)], &s)),
        vec![MacosWindowFrame { x: 0, y: 0, width: 5000, height: 10000 }]
    );
}

#[test]
fn complaints_are_about_the_reference() {
    let s = vars(vec![("word", atom("center", 100))]);
    let params = [frame_expr(["0", "0", "1", "1"], 0), atom("$word", 8)];
    assert_eq!(error(parse_macos_window(&params, &s)).1, Some(span(8)));
}

#[test]
fn unknown_variables_are_words() {
    assert_eq!(
        error(parse_macos_window(&[atom("$nothing", 0)], &no_vars())).0,
        "unknown macos-window command: $nothing"
    );
}

#[test]
fn variables_have_distinct_names() {
    let twice = vec![
        Variable { name: "a".to_string(), value: atom("1", 0) },
        Variable { name: "a".to_string(), value: atom("2", 1) },
    ];
    assert!(ParserState::new(twice).is_none());
}

#[test]
fn variables_do_not_go_round() {
    let circle = vec![
        Variable { name: "a".to_string(), value: atom("$b", 0) },
        Variable { name: "b".to_string(), value: atom("$a", 1) },
    ];
    assert!(ParserState::new(circle).is_none());
    let itself = vec![Variable { name: "a".to_string(), value: atom("$a", 0) }];
    assert!(ParserState::new(itself).is_none());
    let chain = vec![
        Variable { name: "a".to_string(), value: atom("$b", 0) },
        Variable { name: "b".to_string(), value: atom("$c", 1) },
        Variable { name: "c".to_string(), value: atom("end", 2) },
    ];
    let s = ParserState::new(chain).unwrap();
    assert_eq!(atom("$a", 9).atom(&s), Some("end"));
    assert!(atom("$a", 9).list(&s).is_none());
    assert_eq!(atom("$a", 9).span(), span(9));
}

#[test]
fn lists_are_found_through_variables() {
    let s = vars(vec![("l", list(vec![atom("x", 0), atom("y", 1)], 2))]);
    assert_eq!(atom("$l", 5).list(&s).unwrap().len(), 2);
    assert_eq!(atom("$l", 5).atom(&s), None);
    assert_eq!(list(Vec::new(), 3).span(), span(3));
}
