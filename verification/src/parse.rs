//! Reading the parameters of a window action.

use vstd::prelude::*;

use crate::action::{ActionView, MacosWindowAction, MacosWindowCommand, MacosWindowFrame};
use crate::command::{command_of, law_names_are_unambiguous, names_command, parse_command};
use crate::sexpr::{atom_text, list_items, span_of, ParserState, SExpr, Span, Variable};
use crate::text::{
    decimal_natural, decimal_text, i32_value, law_decimal_reads_back, law_quotes_do_not_matter,
    lemma_decimal_has_no_quotes, parse_i32, trim_atom_quotes, without_quotes,
};

verus! {

/// Why an action was refused: what to tell the user, and the expression that it is about.
#[derive(Debug)]
pub struct ParseError {
    pub message: String,
    pub span: Option<Span>,
}

/// What a [`ParseError`] holds.
pub struct Diagnostic {
    pub message: Seq<char>,
    pub span: Option<Span>,
}

impl View for ParseError {
    type V = Diagnostic;

    open spec fn view(&self) -> Diagnostic {
        Diagnostic { message: self.message@, span: self.span }
    }
}

/// A complaint about one expression.
pub open spec fn about(expr: SExpr, message: Seq<char>) -> Diagnostic {
    Diagnostic { message, span: Some(span_of(expr)) }
}

/// A complaint about the action as a whole.
pub open spec fn overall(message: Seq<char>) -> Diagnostic {
    Diagnostic { message, span: None }
}

/// What reading a number of basis points gives; `label` is how complaints call it.
pub open spec fn basis_points(vars: Seq<Variable>, expr: SExpr, label: Seq<char>) -> Result<
    i32,
    Diagnostic,
> {
    match atom_text(vars, expr) {
        None => Err(about(expr, "macos-window "@ + label + " must be a number"@)),
        Some(atom) => match i32_value(without_quotes(atom)) {
            Some(value) => Ok(value),
            None => Err(
                overall(
                    "macos-window "@ + label + " must be a signed integer basis-point value"@,
                ),
            ),
        },
    }
}

/// What reading one frame gives. The numbers are read in order, and the first complaint
/// about one of them stands.
pub open spec fn frame(vars: Seq<Variable>, expr: SExpr) -> Result<MacosWindowFrame, Diagnostic> {
    match list_items(vars, expr) {
        None => Err(
            about(
                expr,
                "macos-window frame cycles must contain only lists: (x y width height)"@,
            ),
        ),
        Some(values) => if values.len() != 4 {
            Err(about(expr, "macos-window frames must have exactly four numbers"@))
        } else {
            match (
                basis_points(vars, values[0], "x"@),
                basis_points(vars, values[1], "y"@),
                basis_points(vars, values[2], "width"@),
                basis_points(vars, values[3], "height"@),
            ) {
                (Err(complaint), _, _, _) => Err(complaint),
                (_, Err(complaint), _, _) => Err(complaint),
                (_, _, Err(complaint), _) => Err(complaint),
                (_, _, _, Err(complaint)) => Err(complaint),
                (Ok(x), Ok(y), Ok(width), Ok(height)) => if width > 0 && height > 0 {
                    Ok(MacosWindowFrame { x, y, width, height })
                } else {
                    Err(about(expr, "macos-window width and height must be greater than 0"@))
                },
            }
        },
    }
}

/// Whether `outcome` is what reading a cycle of frames gives: all the frames in order, or
/// the complaint about the first that cannot be read.
pub open spec fn is_frame_cycle(
    vars: Seq<Variable>,
    params: Seq<SExpr>,
    outcome: Result<ActionView, Diagnostic>,
) -> bool {
    match outcome {
        Ok(ActionView::FrameCycle(frames)) => {
            &&& frames.len() == params.len()
            &&& forall|i: int|
                0 <= i < params.len() ==> frame(vars, #[trigger] params[i]) == Ok::<
                    _,
                    Diagnostic,
                >(frames[i])
        },
        Ok(ActionView::Command(_)) => false,
        Err(complaint) => exists|i: int|
            {
                &&& 0 <= i < params.len()
                &&& frame(vars, #[trigger] params[i]) == Err::<MacosWindowFrame, _>(complaint)
                &&& forall|j: int| 0 <= j < i ==> frame(vars, #[trigger] params[j]) is Ok
            },
    }
}

/// Whether `outcome` is what reading the parameters of a window action gives.
pub open spec fn is_macos_window(
    vars: Seq<Variable>,
    params: Seq<SExpr>,
    outcome: Result<ActionView, Diagnostic>,
) -> bool {
    if params.len() == 0 {
        outcome == Err::<ActionView, _>(
            overall(
                "macos-window expects a command name or at least one frame: (x y width height)"@,
            ),
        )
    } else if list_items(vars, params[0]) is Some {
        is_frame_cycle(vars, params, outcome)
    } else if params.len() != 1 {
        outcome == Err::<ActionView, _>(
            overall(
                "macos-window command form expects exactly one command name, found "@
                    + decimal_text(params.len() as int) + " items"@,
            ),
        )
    } else {
        match atom_text(vars, params[0]) {
            None => outcome == Err::<ActionView, _>(
                about(params[0], "macos-window command must be a string"@),
            ),
            Some(atom) => match command_of(without_quotes(atom)) {
                Some(command) => outcome == Ok::<_, Diagnostic>(ActionView::Command(command)),
                None => outcome == Err::<ActionView, _>(
                    about(
                        params[0],
                        "unknown macos-window command: "@ + without_quotes(atom),
                    ),
                ),
            },
        }
    }
}

/// What an outcome of the parser holds.
pub open spec fn outcome_view(outcome: Result<MacosWindowAction, ParseError>) -> Result<
    ActionView,
    Diagnostic,
> {
    match outcome {
        Ok(action) => Ok(action@),
        Err(error) => Err(error@),
    }
}

/// Reading the same parameters again gives the same outcome.
pub proof fn law_outcome_is_determined(
    vars: Seq<Variable>,
    params: Seq<SExpr>,
    first: Result<ActionView, Diagnostic>,
    second: Result<ActionView, Diagnostic>,
)
    requires
        is_macos_window(vars, params, first),
        is_macos_window(vars, params, second),
    ensures
        first == second,
{
    if params.len() > 0 && list_items(vars, params[0]) is Some {
        match (first, second) {
            (Ok(ActionView::FrameCycle(a)), Ok(ActionView::FrameCycle(b))) => {
                assert forall|i: int| 0 <= i < a.len() implies a[i] == b[i] by {
                    assert(frame(vars, params[i]) == Ok::<_, Diagnostic>(a[i]));
                }
                assert(a =~= b);
            },
            (Err(_), Err(_)) => {},
            _ => {},
        }
    }
}

/// Every frame that is read has a width and a height above zero.
pub proof fn law_frames_have_extent(
    vars: Seq<Variable>,
    params: Seq<SExpr>,
    frames: Seq<MacosWindowFrame>,
    i: int,
)
    requires
        is_macos_window(vars, params, Ok(ActionView::FrameCycle(frames))),
        0 <= i < frames.len(),
    ensures
        frames[i].width > 0,
        frames[i].height > 0,
{
    assert(frame(vars, params[i]) == Ok::<_, Diagnostic>(frames[i]));
}

/// A cycle that is read holds at least one frame.
pub proof fn law_cycles_are_not_empty(
    vars: Seq<Variable>,
    params: Seq<SExpr>,
    frames: Seq<MacosWindowFrame>,
)
    requires
        is_macos_window(vars, params, Ok(ActionView::FrameCycle(frames))),
    ensures
        frames.len() > 0,
        frames.len() == params.len(),
{
}

/// Whether `expr` is the number `n` in decimal.
pub open spec fn writes_number(vars: Seq<Variable>, expr: SExpr, n: i32) -> bool {
    atom_text(vars, expr) == Some(decimal_text(n as int))
}

/// A number that is written in decimal is read as that number.
proof fn lemma_number_reads_back(vars: Seq<Variable>, expr: SExpr, n: i32, label: Seq<char>)
    requires
        writes_number(vars, expr, n),
    ensures
        basis_points(vars, expr, label) == Ok::<_, Diagnostic>(n),
{
    let text = decimal_text(n as int);
    law_decimal_reads_back(n);
    lemma_decimal_has_no_quotes(n as int);
    law_quotes_do_not_matter(text);
}

/// A frame that is written as the list of its four numbers is read as that frame, as long
/// as it has a width and a height.
pub proof fn law_written_frame_reads_back(
    vars: Seq<Variable>,
    expr: SExpr,
    values: Seq<SExpr>,
    written: MacosWindowFrame,
)
    requires
        list_items(vars, expr) == Some(values),
        values.len() == 4,
        writes_number(vars, values[0], written.x),
        writes_number(vars, values[1], written.y),
        writes_number(vars, values[2], written.width),
        writes_number(vars, values[3], written.height),
        written.width > 0,
        written.height > 0,
    ensures
        frame(vars, expr) == Ok::<_, Diagnostic>(written),
{
    lemma_number_reads_back(vars, values[0], written.x, "x"@);
    lemma_number_reads_back(vars, values[1], written.y, "y"@);
    lemma_number_reads_back(vars, values[2], written.width, "width"@);
    lemma_number_reads_back(vars, values[3], written.height, "height"@);
}

/// The word for a command, alone and with or without quotes, is read as that command.
pub proof fn law_command_word_is_read(
    vars: Seq<Variable>,
    param: SExpr,
    atom: Seq<char>,
    command: MacosWindowCommand,
    outcome: Result<ActionView, Diagnostic>,
)
    requires
        atom_text(vars, param) == Some(atom),
        names_command(without_quotes(atom), command),
        is_macos_window(vars, seq![param], outcome),
    ensures
        outcome == Ok::<_, Diagnostic>(ActionView::Command(command)),
{
    let word = without_quotes(atom);
    law_names_are_unambiguous(word, command, command_of(word)->0);
}

/// Whether `expr` stands for a word that, without quotes, is read as the number `n`.
pub open spec fn reads_as(vars: Seq<Variable>, expr: SExpr, n: i32) -> bool {
    atom_text(vars, expr) matches Some(atom) && i32_value(without_quotes(atom)) == Some(n)
}

/// Whether `expr` stands for a list of exactly the four numbers of `written`, and that has
/// a width and a height.
pub open spec fn lists_frame(vars: Seq<Variable>, expr: SExpr, written: MacosWindowFrame) -> bool {
    &&& list_items(vars, expr) matches Some(values) && {
        &&& values.len() == 4
        &&& reads_as(vars, values[0], written.x)
        &&& reads_as(vars, values[1], written.y)
        &&& reads_as(vars, values[2], written.width)
        &&& reads_as(vars, values[3], written.height)
    }
    &&& written.width > 0
    &&& written.height > 0
}

/// A frame is read exactly from a list of four numbers, which are its own in order, the
/// last two above zero.
pub proof fn law_frame_is_a_list_of_four_numbers(
    vars: Seq<Variable>,
    expr: SExpr,
    written: MacosWindowFrame,
)
    ensures
        frame(vars, expr) == Ok::<_, Diagnostic>(written) <==> {
            &&& list_items(vars, expr) matches Some(values) && {
                &&& values.len() == 4
                &&& reads_as(vars, values[0], written.x)
                &&& reads_as(vars, values[1], written.y)
                &&& reads_as(vars, values[2], written.width)
                &&& reads_as(vars, values[3], written.height)
            }
            &&& written.width > 0
            &&& written.height > 0
        },
{
}

/// An expression that is no list, a list of another length than four, and a frame without
/// width or height are refused in these words, and the complaint is about the frame.
pub proof fn law_shape_of_a_frame(vars: Seq<Variable>, expr: SExpr, written: MacosWindowFrame)
    ensures
        list_items(vars, expr) is None ==> frame(vars, expr) == Err::<MacosWindowFrame, _>(
            Diagnostic {
                message:
                    "macos-window frame cycles must contain only lists: (x y width height)"@,
                span: Some(span_of(expr)),
            },
        ),
        (list_items(vars, expr) matches Some(values) && values.len() != 4) ==> frame(vars, expr)
            == Err::<MacosWindowFrame, _>(
            Diagnostic {
                message: "macos-window frames must have exactly four numbers"@,
                span: Some(span_of(expr)),
            },
        ),
        (list_items(vars, expr) matches Some(values) && {
            &&& values.len() == 4
            &&& reads_as(vars, values[0], written.x)
            &&& reads_as(vars, values[1], written.y)
            &&& reads_as(vars, values[2], written.width)
            &&& reads_as(vars, values[3], written.height)
            &&& written.width <= 0 || written.height <= 0
        }) ==> frame(vars, expr) == Err::<MacosWindowFrame, _>(
            Diagnostic {
                message: "macos-window width and height must be greater than 0"@,
                span: Some(span_of(expr)),
            },
        ),
{
}

/// Of four numbers the first that cannot be read is complained about, by its own label: a
/// list in its place with where it stands, and a word that is no number without.
pub proof fn law_first_bad_number_of_a_frame(
    vars: Seq<Variable>,
    expr: SExpr,
    values: Seq<SExpr>,
    k: int,
)
    requires
        list_items(vars, expr) == Some(values),
        values.len() == 4,
        0 <= k < 4,
        forall|j: int|
            0 <= j < k ==> (atom_text(vars, #[trigger] values[j]) matches Some(atom) && i32_value(
                without_quotes(atom),
            ) is Some),
    ensures
        atom_text(vars, values[k]) is None ==> frame(vars, expr) == Err::<MacosWindowFrame, _>(
            Diagnostic {
                message: "macos-window "@ + seq!["x"@, "y"@, "width"@, "height"@][k]
                    + " must be a number"@,
                span: Some(span_of(values[k])),
            },
        ),
        (atom_text(vars, values[k]) matches Some(atom) && i32_value(without_quotes(atom)) is None)
            ==> frame(vars, expr) == Err::<MacosWindowFrame, _>(
            Diagnostic {
                message: "macos-window "@ + seq!["x"@, "y"@, "width"@, "height"@][k]
                    + " must be a signed integer basis-point value"@,
                span: None,
            },
        ),
{
    if k > 0 {
        assert(atom_text(vars, values[0]) is Some);
    }
    if k > 1 {
        assert(atom_text(vars, values[1]) is Some);
    }
    if k > 2 {
        assert(atom_text(vars, values[2]) is Some);
    }
}

/// A single number is read exactly where the word, without quotes, is one; a list and any
/// other word are refused.
pub proof fn law_basis_points_are_words(vars: Seq<Variable>, expr: SExpr, label: Seq<char>, n: i32)
    ensures
        basis_points(vars, expr, label) == Ok::<_, Diagnostic>(n) <==> (atom_text(vars, expr)
            matches Some(atom) && i32_value(without_quotes(atom)) == Some(n)),
        atom_text(vars, expr) is None ==> basis_points(vars, expr, label) == Err::<i32, _>(
            Diagnostic {
                message: "macos-window "@ + label + " must be a number"@,
                span: Some(span_of(expr)),
            },
        ),
        (atom_text(vars, expr) matches Some(atom) && i32_value(without_quotes(atom)) is None)
            ==> basis_points(vars, expr, label) == Err::<i32, _>(
            Diagnostic {
                message: "macos-window "@ + label
                    + " must be a signed integer basis-point value"@,
                span: None,
            },
        ),
{
}

/// Without parameters there is no action.
pub proof fn law_no_parameters_are_refused(
    vars: Seq<Variable>,
    outcome: Result<ActionView, Diagnostic>,
)
    requires
        is_macos_window(vars, Seq::empty(), outcome),
    ensures
        outcome == Err::<ActionView, _>(
            Diagnostic {
                message:
                    "macos-window expects a command name or at least one frame: (x y width height)"@,
                span: None,
            },
        ),
{
}

/// A command is read only from exactly one parameter, a word that names it.
pub proof fn law_command_is_a_single_word(
    vars: Seq<Variable>,
    params: Seq<SExpr>,
    command: MacosWindowCommand,
)
    requires
        is_macos_window(vars, params, Ok(ActionView::Command(command))),
    ensures
        params.len() == 1,
        atom_text(vars, params[0]) matches Some(atom) && names_command(
            without_quotes(atom),
            command,
        ),
{
}

/// A word with anything behind it is refused, and the complaint counts the parameters.
pub proof fn law_second_parameter_is_refused(
    vars: Seq<Variable>,
    params: Seq<SExpr>,
    outcome: Result<ActionView, Diagnostic>,
)
    requires
        params.len() > 1,
        list_items(vars, params[0]) is None,
        is_macos_window(vars, params, outcome),
    ensures
        outcome == Err::<ActionView, _>(
            Diagnostic {
                message: "macos-window command form expects exactly one command name, found "@
                    + decimal_text(params.len() as int) + " items"@,
                span: None,
            },
        ),
{
}

/// A single word that names no command is refused, and the complaint repeats it.
pub proof fn law_other_words_are_refused(
    vars: Seq<Variable>,
    param: SExpr,
    atom: Seq<char>,
    outcome: Result<ActionView, Diagnostic>,
)
    requires
        list_items(vars, param) is None,
        atom_text(vars, param) == Some(atom),
        forall|command: MacosWindowCommand| !names_command(without_quotes(atom), command),
        is_macos_window(vars, seq![param], outcome),
    ensures
        outcome == Err::<ActionView, _>(
            Diagnostic {
                message: "unknown macos-window command: "@ + without_quotes(atom),
                span: Some(span_of(param)),
            },
        ),
{
    assert(seq![param][0] == param);
}

/// A cycle is read exactly where each parameter is a list of four numbers, the last two
/// above zero; its frames are these, one for each parameter and in their order.
pub proof fn law_cycle_is_one_frame_per_parameter(
    vars: Seq<Variable>,
    params: Seq<SExpr>,
    frames: Seq<MacosWindowFrame>,
)
    ensures
        is_macos_window(vars, params, Ok(ActionView::FrameCycle(frames))) <==> {
            &&& params.len() > 0
            &&& frames.len() == params.len()
            &&& forall|i: int|
                0 <= i < params.len() ==> lists_frame(vars, #[trigger] params[i], frames[i])
        },
        is_frame_cycle(vars, params, Ok(ActionView::FrameCycle(frames))) <==> {
            &&& frames.len() == params.len()
            &&& forall|i: int|
                0 <= i < params.len() ==> lists_frame(vars, #[trigger] params[i], frames[i])
        },
{
    assert forall|i: int| 0 <= i < params.len() implies (frame(vars, #[trigger] params[i]) == Ok::<
        _,
        Diagnostic,
    >(frames[i]) <==> lists_frame(vars, params[i], frames[i])) by {
        law_frame_is_a_list_of_four_numbers(vars, params[i], frames[i]);
    }
    if params.len() > 0 {
        assert(params[0] == params[0]);
        if forall|i: int|
            0 <= i < params.len() ==> lists_frame(vars, #[trigger] params[i], frames[i]) {
            assert(lists_frame(vars, params[0], frames[0]));
        }
    }
}

/// Where some parameter of a cycle is no frame, the outcome is the complaint about the
/// first such parameter.
pub proof fn law_first_bad_frame_is_refused(
    vars: Seq<Variable>,
    params: Seq<SExpr>,
    outcome: Result<ActionView, Diagnostic>,
    i: int,
    complaint: Diagnostic,
)
    requires
        0 <= i < params.len(),
        forall|j: int|
            0 <= j < i ==> exists|written: MacosWindowFrame|
                lists_frame(vars, #[trigger] params[j], written),
        frame(vars, params[i]) == Err::<MacosWindowFrame, _>(complaint),
        is_frame_cycle(vars, params, outcome) || (list_items(vars, params[0]) is Some
            && is_macos_window(vars, params, outcome)),
    ensures
        outcome == Err::<ActionView, _>(complaint),
{
    assert(is_frame_cycle(vars, params, outcome));
    assert forall|j: int| 0 <= j < i implies frame(vars, #[trigger] params[j]) is Ok by {
        let written = choose|written: MacosWindowFrame| lists_frame(vars, params[j], written);
        assert(lists_frame(vars, params[j], written));
        law_frame_is_a_list_of_four_numbers(vars, params[j], written);
    }
}

/// A complaint about the action as a whole.
fn complain(message: String) -> (error: ParseError)
    ensures
        error@ == overall(message@),
{
    ParseError { message, span: None }
}

/// A complaint about one expression.
fn complain_about(expr: &SExpr, message: String) -> (error: ParseError)
    ensures
        error@ == about(*expr, message@),
{
    ParseError { message, span: Some(expr.span()) }
}

/// Reads a number of basis points; `label` is how complaints call it.
pub fn parse_basis_points(expr: &SExpr, s: &ParserState, label: &str) -> (points: Result<
    i32,
    ParseError,
>)
    ensures
        match points {
            Ok(value) => basis_points(s@, *expr, label@) == Ok::<_, Diagnostic>(value),
            Err(error) => basis_points(s@, *expr, label@) == Err::<i32, _>(error@),
        },
        forall|n: i32| points == Ok::<_, ParseError>(n) <==> #[trigger] reads_as(s@, *expr, n),
        points matches Err(error) ==> basis_points(s@, *expr, label@) == Err::<i32, _>(
            Diagnostic { message: error.message@, span: error.span },
        ),
{
    let atom = match expr.atom(s) {
        Some(atom) => atom,
        None => {
            let message = "macos-window ".to_owned().concat(label).concat(" must be a number");
            return Err(complain_about(expr, message));
        },
    };
    match parse_i32(trim_atom_quotes(atom)) {
        Some(value) => Ok(value),
        None => {
            let message = "macos-window ".to_owned().concat(label).concat(
                " must be a signed integer basis-point value",
            );
            Err(complain(message))
        },
    }
}

/// Reads one frame: a list of x, y, width and height.
fn parse_frame(expr: &SExpr, s: &ParserState) -> (parsed: Result<MacosWindowFrame, ParseError>)
    ensures
        match parsed {
            Ok(value) => frame(s@, *expr) == Ok::<_, Diagnostic>(value),
            Err(error) => frame(s@, *expr) == Err::<MacosWindowFrame, _>(error@),
        },
{
    let values = match expr.list(s) {
        Some(values) => values,
        None => {
            return Err(
                complain_about(
                    expr,
                    "macos-window frame cycles must contain only lists: (x y width height)".to_owned(),
                ),
            );
        },
    };
    if values.len() != 4 {
        return Err(
            complain_about(
                expr,
                "macos-window frames must have exactly four numbers".to_owned(),
            ),
        );
    }
    let x: i32 = match parse_basis_points(&values[0], s, "x") {
        Ok(x) => x,
        Err(error) => return Err(error),
    };
    let y: i32 = match parse_basis_points(&values[1], s, "y") {
        Ok(y) => y,
        Err(error) => return Err(error),
    };
    let width: i32 = match parse_basis_points(&values[2], s, "width") {
        Ok(width) => width,
        Err(error) => return Err(error),
    };
    let height: i32 = match parse_basis_points(&values[3], s, "height") {
        Ok(height) => height,
        Err(error) => return Err(error),
    };
    if width <= 0 || height <= 0 {
        return Err(
            complain_about(
                expr,
                "macos-window width and height must be greater than 0".to_owned(),
            ),
        );
    }
    Ok(MacosWindowFrame { x, y, width, height })
}

/// Reads the frames that repeated presses go through.
pub fn parse_frame_cycle(ac_params: &[SExpr], s: &ParserState) -> (parsed: Result<
    MacosWindowAction,
    ParseError,
>)
    ensures
        is_frame_cycle(s@, ac_params@, outcome_view(parsed)),
        parsed matches Ok(action) ==> (action matches MacosWindowAction::FrameCycle(frames) && {
            &&& frames@.len() == ac_params@.len()
            &&& forall|i: int|
                0 <= i < ac_params@.len() ==> lists_frame(
                    s@,
                    #[trigger] ac_params@[i],
                    frames@[i],
                )
        }),
        parsed matches Err(error) ==> is_frame_cycle(
            s@,
            ac_params@,
            Err(Diagnostic { message: error.message@, span: error.span }),
        ),
{
    let mut frames: Vec<MacosWindowFrame> = Vec::with_capacity(ac_params.len());
    let mut i: usize = 0;
    while i < ac_params.len()
        invariant
            i <= ac_params@.len(),
            frames@.len() == i,
            forall|j: int|
                0 <= j < i ==> frame(s@, #[trigger] ac_params@[j]) == Ok::<_, Diagnostic>(
                    frames@[j],
                ),
        decreases ac_params@.len() - i,
    {
        match parse_frame(&ac_params[i], s) {
            Ok(parsed) => frames.push(parsed),
            Err(error) => {
                assert(frame(s@, ac_params@[i as int]) == Err::<MacosWindowFrame, _>(error@));
                return Err(error);
            },
        }
        i += 1;
    }
    Ok(MacosWindowAction::FrameCycle(frames))
}

/// Reads the parameters of a window action: one command, or a cycle of frames.
pub fn parse_macos_window(ac_params: &[SExpr], s: &ParserState) -> (parsed: Result<
    MacosWindowAction,
    ParseError,
>)
    ensures
        is_macos_window(s@, ac_params@, outcome_view(parsed)),
        parsed matches Ok(MacosWindowAction::Command(command)) ==> {
            &&& ac_params@.len() == 1
            &&& atom_text(s@, ac_params@[0]) matches Some(atom) && names_command(
                without_quotes(atom),
                command,
            )
        },
        parsed matches Ok(MacosWindowAction::FrameCycle(frames)) ==> {
            &&& frames@.len() == ac_params@.len() > 0
            &&& forall|i: int|
                0 <= i < ac_params@.len() ==> lists_frame(
                    s@,
                    #[trigger] ac_params@[i],
                    frames@[i],
                )
        },
        parsed matches Err(error) ==> is_macos_window(
            s@,
            ac_params@,
            Err(Diagnostic { message: error.message@, span: error.span }),
        ),
{
    if ac_params.len() == 0 {
        return Err(
            complain(
                "macos-window expects a command name or at least one frame: (x y width height)".to_owned(),
            ),
        );
    }
    let first = &ac_params[0];
    if first.list(s).is_some() {
        return parse_frame_cycle(ac_params, s);
    }
    if ac_params.len() != 1 {
        let found = decimal_natural(ac_params.len() as u128);
        let message =
            "macos-window command form expects exactly one command name, found ".to_owned().concat(
            found.as_str(),
        ).concat(" items");
        return Err(complain(message));
    }
    let command = match first.atom(s) {
        Some(command) => command,
        None => {
            return Err(
                complain_about(first, "macos-window command must be a string".to_owned()),
            );
        },
    };
    let command = trim_atom_quotes(command);
    match parse_command(command) {
        Some(command) => Ok(MacosWindowAction::Command(command)),
        None => Err(
            complain_about(first, "unknown macos-window command: ".to_owned().concat(command)),
        ),
    }
}

} // verus!
