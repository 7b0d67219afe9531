//! The display backends and the commands that drive them.
//!
//! Nothing here starts a process. A `Command` is a program name with its
//! arguments; the caller launches it and does not wait for it to finish.

use vstd::prelude::*;
use crate::decimal::{all_digits, digit_value, digits_value, parse_decimal};
use crate::orientation::{
    lemma_rotation_keyword_round_trip, lemma_transform_id_round_trip, matrix_of,
    rotation_keyword_of, transform_id_of, with_rotation_keyword, with_transform_id, Orientation,
};

verus! {

/// The display servers that can be driven.
#[derive(Clone, Copy, Debug, PartialEq, Eq, Structural)]
pub enum BackendKind {
    /// A Sway compositor, which also re-maps touch input by itself.
    Sway,
    /// An X server, whose touchscreen needs a transformation matrix.
    Xorg,
}

/// The backend that the process lists stand for: each argument is what a
/// process lookup printed, empty when no such process runs. An X server
/// takes precedence over a compositor.
pub open spec fn detected_kind(sway_pids: Seq<char>, xorg_pids: Seq<char>) -> Option<BackendKind> {
    if xorg_pids.len() > 0 {
        Some(BackendKind::Xorg)
    } else if sway_pids.len() > 0 {
        Some(BackendKind::Sway)
    } else {
        None
    }
}

/// The identifier by which a backend of the given kind names `o`: what it
/// reports as the current transform and what it takes to set one.
pub open spec fn identifier_of(kind: BackendKind, o: Orientation) -> Seq<char> {
    match kind {
        BackendKind::Sway => transform_id_of(o),
        BackendKind::Xorg => rotation_keyword_of(o),
    }
}

/// The orientation that a backend of the given kind names `identifier`, or
/// `None` where it names none of the four that way.
pub open spec fn orientation_named(kind: BackendKind, identifier: Seq<char>) -> Option<
    Orientation,
> {
    match kind {
        BackendKind::Sway => with_transform_id(identifier),
        BackendKind::Xorg => with_rotation_keyword(identifier),
    }
}

/// An orientation is found again under its own identifier: a transform
/// that a backend reports in the words in which it was set names the
/// orientation that was set.
pub proof fn lemma_identifier_round_trip(kind: BackendKind, o: Orientation)
    ensures
        orientation_named(kind, identifier_of(kind, o)) == Some(o),
{
    match kind {
        BackendKind::Sway => lemma_transform_id_round_trip(o),
        BackendKind::Xorg => lemma_rotation_keyword_round_trip(o),
    }
}

/// An identifier that names an orientation is that orientation's own.
pub proof fn lemma_named_by_own_identifier(kind: BackendKind, identifier: Seq<char>)
    ensures
        orientation_named(kind, identifier) matches Some(o) ==> identifier == identifier_of(
            kind,
            o,
        ),
{
}

impl BackendKind {
    /// The orientation that this kind of backend names `identifier`.
    pub fn orientation_named(self, identifier: &str) -> (r: Option<Orientation>)
        ensures
            r == orientation_named(self, identifier@),
    {
        match self {
            BackendKind::Sway => Orientation::from_transform_id(identifier),
            BackendKind::Xorg => Orientation::from_rotation_keyword(identifier),
        }
    }

    /// Picks the backend from the output of the two process lookups.
    pub fn detect(sway_pids: &str, xorg_pids: &str) -> (kind: Option<BackendKind>)
        ensures
            kind == detected_kind(sway_pids@, xorg_pids@),
    {
        if !xorg_pids.is_empty() {
            Some(BackendKind::Xorg)
        } else if !sway_pids.is_empty() {
            Some(BackendKind::Sway)
        } else {
            None
        }
    }
}

/// A backend together with the devices it acts on.
#[derive(Clone, Debug, PartialEq, Eq)]
pub enum Backend {
    /// A compositor and the output to rotate.
    Sway { display: String },
    /// An X server, the output to rotate, and the touchscreen whose
    /// coordinates are re-mapped.
    Xorg { display: String, touchscreen: String },
}

/// What a `Backend` holds, as plain sequences of characters.
pub enum BackendView {
    Sway { display: Seq<char> },
    Xorg { display: Seq<char>, touchscreen: Seq<char> },
}

impl View for Backend {
    type V = BackendView;

    open spec fn view(&self) -> BackendView {
        match self {
            Backend::Sway { display } => BackendView::Sway { display: display@ },
            Backend::Xorg { display, touchscreen } => BackendView::Xorg {
                display: display@,
                touchscreen: touchscreen@,
            },
        }
    }
}

impl BackendView {
    /// The kind of this backend.
    pub open spec fn kind(self) -> BackendKind {
        match self {
            BackendView::Sway { .. } => BackendKind::Sway,
            BackendView::Xorg { .. } => BackendKind::Xorg,
        }
    }

    /// The display that this backend rotates.
    pub open spec fn display(self) -> Seq<char> {
        match self {
            BackendView::Sway { display } => display,
            BackendView::Xorg { display, .. } => display,
        }
    }
}

/// A program and the arguments to start it with.
#[derive(Clone, Debug, PartialEq, Eq)]
pub struct Command {
    pub program: String,
    pub args: Vec<String>,
}

/// What a `Command` holds, as plain sequences of characters.
pub struct CommandView {
    pub program: Seq<char>,
    pub args: Seq<Seq<char>>,
}

impl View for Command {
    type V = CommandView;

    open spec fn view(&self) -> CommandView {
        CommandView { program: self.program@, args: self.args.deep_view() }
    }
}

impl DeepView for Command {
    type V = CommandView;

    open spec fn deep_view(&self) -> CommandView {
        self@
    }
}

/// The text of each coefficient of the input-transform matrix of `o`.
pub open spec fn matrix_tokens_of(o: Orientation) -> Seq<Seq<char>> {
    match o {
        Orientation::Normal => seq!["1"@, "0"@, "0"@, "0"@, "1"@, "0"@, "0"@, "0"@, "1"@],
        Orientation::Inverted => seq!["-1"@, "0"@, "1"@, "0"@, "-1"@, "1"@, "0"@, "0"@, "1"@],
        Orientation::LeftUp => seq!["0"@, "-1"@, "1"@, "1"@, "0"@, "0"@, "0"@, "0"@, "1"@],
        Orientation::RightUp => seq!["0"@, "1"@, "0"@, "-1"@, "0"@, "1"@, "0"@, "0"@, "1"@],
    }
}

/// The command that asks `backend` for the state of its outputs.
pub open spec fn query_command_of(backend: BackendView) -> CommandView {
    match backend {
        BackendView::Sway { .. } => CommandView {
            program: "swaymsg"@,
            args: seq!["-t"@, "get_outputs"@, "--raw"@],
        },
        BackendView::Xorg { .. } => CommandView { program: "xrandr"@, args: seq![] },
    }
}

/// The commands that bring `backend` to the orientation `o`, in the order
/// in which they are to be started.
///
/// A compositor takes one command, which names the display and the
/// transform identifier. An X server takes two that do not depend on each
/// other: one sets the rotation keyword of the named display, one sets the
/// transformation matrix of the named touchscreen.
pub open spec fn rotate_commands_of(backend: BackendView, o: Orientation) -> Seq<CommandView> {
    match backend {
        BackendView::Sway { display } => seq![
            CommandView {
                program: "swaymsg"@,
                args: seq!["output"@, display, "transform"@, transform_id_of(o)],
            },
        ],
        BackendView::Xorg { display, touchscreen } => seq![
            CommandView {
                program: "xrandr"@,
                args: seq!["--output"@, display, "--rotate"@, rotation_keyword_of(o)],
            },
            CommandView {
                program: "xinput"@,
                args: seq!["set-prop"@, touchscreen, "Coordinate"@, "Transformation"@, "Matrix"@]
                    + matrix_tokens_of(o),
            },
        ],
    }
}

/// The text of a matrix coefficient `c` between -1 and 1.
spec fn coefficient_text(c: i8) -> Seq<char> {
    if c == -1 {
        "-1"@
    } else if c == 0 {
        "0"@
    } else {
        "1"@
    }
}

/// Each token of a matrix is the text of the coefficient at its place.
proof fn lemma_matrix_token(o: Orientation, i: int)
    requires
        0 <= i < 9,
    ensures
        matrix_of(o).len() == 9,
        matrix_tokens_of(o).len() == 9,
        -1 <= matrix_of(o)[i] <= 1,
        matrix_tokens_of(o)[i] == coefficient_text(matrix_of(o)[i]),
{
}

/// The tokens of a matrix spell its coefficients: read as a decimal
/// number, each token is the coefficient at its place.
pub proof fn lemma_matrix_tokens_spell_matrix(o: Orientation, i: int)
    requires
        0 <= i < 9,
    ensures
        parse_decimal(matrix_tokens_of(o)[i]) == Some(matrix_of(o)[i] as int),
{
    lemma_matrix_token(o, i);
    reveal_strlit("-1");
    reveal_strlit("0");
    reveal_strlit("1");
    let token = matrix_tokens_of(o)[i];
    let digits = if token[0] == '-' {
        token.skip(1)
    } else {
        token
    };
    assert(digits.len() == 1);
    assert(digits_value(digits.drop_last()) == 0);
    assert(digits_value(digits) == digit_value(digits[0]));
    assert(all_digits(digits));
}

/// The text of the matrix coefficient `c`.
fn coefficient_token(c: i8) -> (token: &'static str)
    requires
        -1 <= c <= 1,
    ensures
        token@ == coefficient_text(c),
{
    if c == -1 {
        "-1"
    } else if c == 0 {
        "0"
    } else {
        "1"
    }
}

impl Backend {
    /// A backend of the given kind for `display`. The touchscreen is kept
    /// where the backend has a use for it.
    pub fn new(kind: BackendKind, display: String, touchscreen: String) -> (backend: Backend)
        ensures
            backend@ == (match kind {
                BackendKind::Sway => BackendView::Sway { display: display@ },
                BackendKind::Xorg => BackendView::Xorg {
                    display: display@,
                    touchscreen: touchscreen@,
                },
            }),
    {
        match kind {
            BackendKind::Sway => Backend::Sway { display },
            BackendKind::Xorg => Backend::Xorg { display, touchscreen },
        }
    }

    /// The kind of this backend.
    pub fn kind(&self) -> (kind: BackendKind)
        ensures
            kind == self@.kind(),
    {
        match self {
            Backend::Sway { .. } => BackendKind::Sway,
            Backend::Xorg { .. } => BackendKind::Xorg,
        }
    }

    /// The display that this backend rotates.
    pub fn display(&self) -> (display: &str)
        ensures
            display@ == self@.display(),
    {
        match self {
            Backend::Sway { display } => display.as_str(),
            Backend::Xorg { display, .. } => display.as_str(),
        }
    }

    /// The command whose output tells the current transform.
    pub fn query_command(&self) -> (command: Command)
        ensures
            command@ == query_command_of(self@),
    {
        match self {
            Backend::Sway { .. } => {
                let args = vec!["-t".to_owned(), "get_outputs".to_owned(), "--raw".to_owned()];
                let command = Command { program: "swaymsg".to_owned(), args };
                assert(command@.args =~= query_command_of(self@).args);
                command
            },
            Backend::Xorg { .. } => {
                let command = Command { program: "xrandr".to_owned(), args: Vec::new() };
                assert(command@.args =~= query_command_of(self@).args);
                command
            },
        }
    }

    /// The commands that rotate to `o`.
    pub fn rotate_commands(&self, o: Orientation) -> (commands: Vec<Command>)
        ensures
            commands.deep_view() == rotate_commands_of(self@, o),
    {
        match self {
            Backend::Sway { display } => {
                let args = vec![
                    "output".to_owned(),
                    display.clone(),
                    "transform".to_owned(),
                    o.transform_id().to_owned(),
                ];
                let command = Command { program: "swaymsg".to_owned(), args };
                assert(command@.args =~= rotate_commands_of(self@, o)[0].args);
                let commands = vec![command];
                assert(commands.deep_view() =~= rotate_commands_of(self@, o));
                commands
            },
            Backend::Xorg { display, touchscreen } => {
                let rotate_args = vec![
                    "--output".to_owned(),
                    display.clone(),
                    "--rotate".to_owned(),
                    o.rotation_keyword().to_owned(),
                ];
                let rotate = Command { program: "xrandr".to_owned(), args: rotate_args };
                assert(rotate@.args =~= rotate_commands_of(self@, o)[0].args);
                let mut args = vec![
                    "set-prop".to_owned(),
                    touchscreen.clone(),
                    "Coordinate".to_owned(),
                    "Transformation".to_owned(),
                    "Matrix".to_owned(),
                ];
                let matrix = o.matrix();
                let ghost head = args.deep_view();
                let mut i: usize = 0;
                while i < 9
                    invariant
                        i <= 9,
                        matrix@ == matrix_of(o),
                        head.len() == 5,
                        args.deep_view() == head + matrix_tokens_of(o).take(i as int),
                    decreases 9 - i,
                {
                    proof {
                        lemma_matrix_token(o, i as int);
                    }
                    let token = coefficient_token(matrix[i]);
                    let ghost before = args.deep_view();
                    args.push(token.to_owned());
                    assert(args.deep_view() =~= before.push(token@));
                    assert(matrix_tokens_of(o).take(i + 1) =~= matrix_tokens_of(o).take(
                        i as int,
                    ).push(token@));
                    i += 1;
                }
                assert(matrix_tokens_of(o).take(9) =~= matrix_tokens_of(o));
                let remap = Command { program: "xinput".to_owned(), args };
                assert(remap@.args =~= rotate_commands_of(self@, o)[1].args);
                let commands = vec![rotate, remap];
                assert(commands.deep_view() =~= rotate_commands_of(self@, o));
                commands
            },
        }
    }
}

} // verus!
