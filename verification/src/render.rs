//! The screen: the gallows, the partly revealed word, and the full frame as
//! a list of terminal commands.
//!
//! Nothing here touches a terminal. A frame is a value; whoever owns the
//! terminal carries its commands out in order.

use vstd::prelude::*;
use vstd::string::StringExecFns;
use crate::letters::{all_revealed, is_guessed};
use crate::state::Outcome;

verus! {

/// The two colours the game ever sets.
#[derive(Clone, Copy, Debug, PartialEq, Eq, Structural)]
pub enum Color {
    White,
    Black,
}

/// One instruction to the terminal.
#[derive(Debug, PartialEq, Eq)]
pub enum DrawCommand {
    /// Clear the whole screen.
    ClearAll,
    /// Put the cursor at (column, row), counted from zero.
    MoveTo(u16, u16),
    /// Stop showing the cursor.
    HideCursor,
    /// Write the text at the cursor.
    Print(String),
    /// Set the colour of the text.
    SetForeground(Color),
    /// Set the colour behind the text.
    SetBackground(Color),
    /// Go back to the terminal's own colours.
    ResetColor,
}

/// A [`DrawCommand`] as a mathematical value: the same instruction, its text
/// as a sequence of characters.
pub enum DrawOp {
    ClearAll,
    MoveTo(u16, u16),
    HideCursor,
    Print(Seq<char>),
    SetForeground(Color),
    SetBackground(Color),
    ResetColor,
}

impl View for DrawCommand {
    type V = DrawOp;

    open spec fn view(&self) -> DrawOp {
        match *self {
            DrawCommand::ClearAll => DrawOp::ClearAll,
            DrawCommand::MoveTo(column, row) => DrawOp::MoveTo(column, row),
            DrawCommand::HideCursor => DrawOp::HideCursor,
            DrawCommand::Print(text) => DrawOp::Print(text@),
            DrawCommand::SetForeground(color) => DrawOp::SetForeground(color),
            DrawCommand::SetBackground(color) => DrawOp::SetBackground(color),
            DrawCommand::ResetColor => DrawOp::ResetColor,
        }
    }
}

/// A list of commands as the list of their views.
pub open spec fn frame_view(commands: Seq<DrawCommand>) -> Seq<DrawOp> {
    commands.map_values(|command: DrawCommand| command@)
}

/// A part of the hanged figure: its glyph once it is drawn, a blank before.
pub open spec fn part(drawn: bool, glyph: char) -> char {
    if drawn {
        glyph
    } else {
        ' '
    }
}

/// The gallows after `errors` wrong guesses, seven lines of text.
///
/// The head comes with the first error, then the left arm, the right arm,
/// the torso, the left leg and the right leg, one per error. From the sixth
/// error on the figure is complete and stays as it is.
pub open spec fn gallows(errors: nat) -> Seq<char> {
    "  ___\n"@
    + " |   |\n"@
    + " |   "@ + seq![part(errors > 0, 'O'), '\n']
    + " |  "@ + seq![part(errors > 1, '/'), part(errors > 3, '|'), part(errors > 2, '\\'), '\n']
    + " |  "@ + seq![part(errors > 4, '/'), ' ', part(errors > 5, '\\'), '\n']
    + "_|_\n"@
    + "\n"@
}

/// Executable [`part`].
fn limb(drawn: bool, glyph: char) -> (c: char)
    ensures
        c == part(drawn, glyph),
{
    if drawn {
        glyph
    } else {
        ' '
    }
}

/// The gallows figure for the given number of wrong guesses.
pub fn draw_gallows(errors: usize) -> (figure: String)
    ensures
        figure@ == gallows(errors as nat),
{
    let mut figure = String::new();
    figure.append("  ___\n");
    figure.append(" |   |\n");
    figure.append(" |   ");
    figure.push(limb(errors > 0, 'O'));
    figure.push('\n');
    figure.append(" |  ");
    figure.push(limb(errors > 1, '/'));
    figure.push(limb(errors > 3, '|'));
    figure.push(limb(errors > 2, '\\'));
    figure.push('\n');
    figure.append(" |  ");
    figure.push(limb(errors > 4, '/'));
    figure.push(' ');
    figure.push(limb(errors > 5, '\\'));
    figure.push('\n');
    figure.append("_|_\n");
    figure.append("\n");
    figure
}

/// Where the six parts of the figure stand in the text of the gallows, and
/// that nothing else in it depends on the number of errors: 41 characters,
/// the head at 18, the arms at 24 and 26 with the torso between them, the
/// legs at 32 and 34.
pub proof fn lemma_gallows_parts(errors: nat)
    ensures
        gallows(errors).len() == 41,
        gallows(errors)[18] == part(errors > 0, 'O'),
        gallows(errors)[24] == part(errors > 1, '/'),
        gallows(errors)[26] == part(errors > 2, '\\'),
        gallows(errors)[25] == part(errors > 3, '|'),
        gallows(errors)[32] == part(errors > 4, '/'),
        gallows(errors)[34] == part(errors > 5, '\\'),
        forall|i: int|
            0 <= i < 41 && i != 18 && i != 24 && i != 25 && i != 26 && i != 32 && i != 34
                ==> gallows(errors)[i] == gallows(0)[i],
{
    reveal_strlit("  ___\n");
    reveal_strlit(" |   |\n");
    reveal_strlit(" |   ");
    reveal_strlit(" |  ");
    reveal_strlit("_|_\n");
    reveal_strlit("\n");
}

/// The figure only grows: whatever is drawn after `fewer` errors is still
/// drawn, in the same place, after `more`.
pub proof fn lemma_gallows_grows(fewer: nat, more: nat)
    requires
        fewer <= more,
    ensures
        gallows(fewer).len() == gallows(more).len(),
        forall|i: int|
            0 <= i < gallows(fewer).len() && gallows(fewer)[i] != ' ' ==> gallows(more)[i]
                == gallows(fewer)[i],
{
    lemma_gallows_parts(fewer);
    lemma_gallows_parts(more);
}

/// Each of the first six errors adds exactly one part, and no error after
/// the sixth adds anything.
pub proof fn lemma_gallows_step(errors: nat)
    ensures
        errors < 6 ==> exists|at: int|
            0 <= at < 41 && gallows(errors)[at] == ' ' && #[trigger] gallows(errors + 1)[at] != ' '
                && gallows(errors + 1) == gallows(errors).update(at, gallows(errors + 1)[at]),
        errors >= 6 ==> gallows(errors) == gallows(6),
{
    lemma_gallows_parts(errors);
    lemma_gallows_parts(errors + 1);
    lemma_gallows_parts(6);
    if errors < 6 {
        let at: int = if errors == 0 {
            18
        } else if errors == 1 {
            24
        } else if errors == 2 {
            26
        } else if errors == 3 {
            25
        } else if errors == 4 {
            32
        } else {
            34
        };
        assert(gallows(errors + 1)[at] != ' ');
        assert(gallows(errors + 1) =~= gallows(errors).update(at, gallows(errors + 1)[at]));
    } else {
        assert(gallows(errors) =~= gallows(6));
    }
}

/// What the word line shows for the character `c` of the word: the
/// character itself once it has been guessed, an underscore before.
pub open spec fn cell(c: char, guessed: Seq<char>) -> char {
    if guessed.contains(c) {
        c
    } else {
        '_'
    }
}

/// The cells of the word line: for each character of `word`, in order, its
/// [`cell`] followed by one space.
pub open spec fn cells(word: Seq<char>, guessed: Seq<char>) -> Seq<char> {
    Seq::new(
        2 * word.len(),
        |i: int|
            if i % 2 == 0 {
                cell(word[i / 2], guessed)
            } else {
                ' '
            },
    )
}

/// The word line: the [`cells`] of the word, then a line feed.
pub open spec fn word_line(word: Seq<char>, guessed: Seq<char>) -> Seq<char> {
    cells(word, guessed).push('\n')
}

/// The word with every letter not yet guessed masked by an underscore, on
/// one line.
pub fn draw_word(word: &str, guessed_letters: &[char]) -> (line: String)
    ensures
        line@ == word_line(word@, guessed_letters@),
{
    let mut line = String::new();
    for c in it: word.chars()
        invariant
            it.seq() == word@,
            line@ == cells(word@.take(it.index()), guessed_letters@),
    {
        let ghost before = line@;
        if is_guessed(guessed_letters, c) {
            line.push(c);
        } else {
            line.push('_');
        }
        line.push(' ');
        assert(line@ == cells(word@.take(it.index() + 1), guessed_letters@)) by {
            assert(line@ == before.push(cell(c, guessed_letters@)).push(' '));
            assert(c == word@[it.index()]);
        }
    }
    assert(word@.take(word@.len() as int) == word@);
    line.push('\n');
    line
}

/// The word line shows the word position by position: as many cells as the
/// word has characters, in the word's order, each followed by a space; a
/// cell shows its character if that character has been guessed and an
/// underscore if not; a line feed ends the line.
pub proof fn lemma_word_line(word: Seq<char>, guessed: Seq<char>)
    ensures
        word_line(word, guessed).len() == 2 * word.len() + 1,
        word_line(word, guessed).last() == '\n',
        forall|i: int|
            0 <= i < word.len() ==> {
                &&& guessed.contains(#[trigger] word[i]) ==> word_line(word, guessed)[2 * i]
                    == word[i]
                &&& !guessed.contains(word[i]) ==> word_line(word, guessed)[2 * i] == '_'
                &&& word_line(word, guessed)[2 * i + 1] == ' '
            },
{
}

/// Once every letter of the word has been guessed, the word line shows the
/// word in full.
pub proof fn lemma_revealed_word_shows(word: Seq<char>, guessed: Seq<char>)
    requires
        all_revealed(word, guessed),
    ensures
        forall|i: int| 0 <= i < word.len() ==> word_line(word, guessed)[2 * i] == #[trigger] word[i],
{
}

/// The whole screen while the game is on, as the commands that draw it.
///
/// It starts by clearing the screen and hiding the cursor, so it shows the
/// same whatever was on the screen before. Then, each at its fixed place:
/// the title, the instruction, the [`gallows`], the [`word_line`] behind its
/// label, and the prompt.
pub open spec fn interface(word: Seq<char>, guessed: Seq<char>, errors: nat) -> Seq<DrawOp> {
    seq![
        DrawOp::ClearAll,
        DrawOp::MoveTo(1, 1),
        DrawOp::HideCursor,
        DrawOp::Print("Hangman Game"@),
        DrawOp::MoveTo(1, 3),
        DrawOp::Print("Guess the word:"@),
        DrawOp::MoveTo(1, 4),
        DrawOp::Print(gallows(errors)),
        DrawOp::MoveTo(1, 8),
        DrawOp::Print("Word: "@),
        DrawOp::Print(word_line(word, guessed)),
        DrawOp::MoveTo(1, 12),
        DrawOp::Print("Enter a letter:"@),
    ]
}

/// The frame for the given state of the game: a full redraw that relies on
/// nothing drawn earlier.
pub fn draw_interface(word: &str, guessed_letters: &[char], errors: usize) -> (frame: Vec<
    DrawCommand,
>)
    ensures
        frame_view(frame@) == interface(word@, guessed_letters@, errors as nat),
{
    let mut frame: Vec<DrawCommand> = Vec::new();
    frame.push(DrawCommand::ClearAll);
    frame.push(DrawCommand::MoveTo(1, 1));
    frame.push(DrawCommand::HideCursor);
    frame.push(DrawCommand::Print(String::from_str("Hangman Game")));
    frame.push(DrawCommand::MoveTo(1, 3));
    frame.push(DrawCommand::Print(String::from_str("Guess the word:")));
    frame.push(DrawCommand::MoveTo(1, 4));
    frame.push(DrawCommand::Print(draw_gallows(errors)));
    frame.push(DrawCommand::MoveTo(1, 8));
    frame.push(DrawCommand::Print(String::from_str("Word: ")));
    frame.push(DrawCommand::Print(draw_word(word, guessed_letters)));
    frame.push(DrawCommand::MoveTo(1, 12));
    frame.push(DrawCommand::Print(String::from_str("Enter a letter:")));
    frame
}

/// Redrawing changes nothing: two frames drawn for the same word, guesses
/// and error count are the same commands, one for one.
pub proof fn lemma_redraw_identical(
    first: Seq<DrawCommand>,
    second: Seq<DrawCommand>,
    word: Seq<char>,
    guessed: Seq<char>,
    errors: nat,
)
    requires
        frame_view(first) == interface(word, guessed, errors),
        frame_view(second) == interface(word, guessed, errors),
    ensures
        first.len() == second.len(),
        forall|i: int| 0 <= i < first.len() ==> (#[trigger] first[i])@ == second[i]@,
{
    assert(frame_view(first).len() == first.len());
    assert(frame_view(second).len() == second.len());
    assert forall|i: int| 0 <= i < first.len() implies (#[trigger] first[i])@ == second[i]@ by {
        assert(frame_view(first)[i] == first[i]@);
        assert(frame_view(second)[i] == second[i]@);
    }
}

/// A frame owes nothing to the screen before it: its first command clears
/// the screen, and the cursor is hidden before anything is written.
pub proof fn lemma_interface_starts_clean(word: Seq<char>, guessed: Seq<char>, errors: nat)
    ensures
        interface(word, guessed, errors)[0] == DrawOp::ClearAll,
        interface(word, guessed, errors)[2] == DrawOp::HideCursor,
        forall|i: int| 0 <= i < 3 ==> !(#[trigger] interface(word, guessed, errors)[i] is Print),
{
}

/// The message that ends a session: none while the game is on, the word
/// given away when it is lost, congratulations when it is won.
pub open spec fn farewell(word: Seq<char>, outcome: Outcome) -> Option<Seq<char>> {
    match outcome {
        Outcome::Playing => None,
        Outcome::Lost => Some("You lost! The word was: "@ + word),
        Outcome::Won => Some("Congratulations! You won!"@),
    }
}

/// The last screen of a session: cleared, the colours reset, and the
/// [`farewell`] on a line of its own. There is none while the game is on.
pub open spec fn closing(word: Seq<char>, outcome: Outcome) -> Option<Seq<DrawOp>> {
    match farewell(word, outcome) {
        None => None,
        Some(message) => Some(
            seq![
                DrawOp::ClearAll,
                DrawOp::SetForeground(Color::White),
                DrawOp::SetBackground(Color::Black),
                DrawOp::MoveTo(1, 1),
                DrawOp::ResetColor,
                DrawOp::Print(message.push('\n')),
            ],
        ),
    }
}

/// The message that ends a session on `word` with the given outcome, if
/// the outcome ends it.
pub fn final_message(word: &str, outcome: Outcome) -> (message: Option<String>)
    ensures
        message is Some <==> outcome != Outcome::Playing,
        match farewell(word@, outcome) {
            None => message is None,
            Some(text) => message is Some && message.unwrap()@ == text,
        },
{
    match outcome {
        Outcome::Playing => None,
        Outcome::Lost => {
            let mut message = String::from_str("You lost! The word was: ");
            message.append(word);
            Some(message)
        },
        Outcome::Won => Some(String::from_str("Congratulations! You won!")),
    }
}

/// The last screen of a session on `word` with the given outcome, if the
/// outcome ends it.
pub fn draw_outcome(word: &str, outcome: Outcome) -> (screen: Option<Vec<DrawCommand>>)
    ensures
        screen is Some <==> outcome != Outcome::Playing,
        match closing(word@, outcome) {
            None => screen is None,
            Some(ops) => screen is Some && frame_view(screen.unwrap()@) == ops,
        },
{
    match final_message(word, outcome) {
        None => None,
        Some(message) => {
            let mut line = message;
            line.push('\n');
            let mut screen: Vec<DrawCommand> = Vec::new();
            screen.push(DrawCommand::ClearAll);
            screen.push(DrawCommand::SetForeground(Color::White));
            screen.push(DrawCommand::SetBackground(Color::Black));
            screen.push(DrawCommand::MoveTo(1, 1));
            screen.push(DrawCommand::ResetColor);
            screen.push(DrawCommand::Print(line));
            Some(screen)
        },
    }
}

} // verus!
