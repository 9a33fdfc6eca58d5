//! The game as a state machine over mathematical values: what a guess does,
//! what an input event does, when the game is lost or won, and the laws
//! that follow.

use vstd::prelude::*;
use crate::letters::{all_revealed, lemma_miss_count_empty, lemma_miss_count_push, miss_count};
use crate::text::alphabetic;

verus! {

/// The number of wrong guesses at which the game is lost.
pub const MAX_ERRORS: usize = 6;

/// Where a game stands.
#[derive(Clone, Copy, Debug, PartialEq, Eq, Structural)]
pub enum Outcome {
    /// Neither lost nor won yet.
    Playing,
    /// Six wrong guesses were made.
    Lost,
    /// Every letter of the word has been guessed.
    Won,
}

/// What the terminal reports: the part of an input event that the game
/// looks at.
#[derive(Clone, Copy, Debug, PartialEq, Eq, Structural)]
pub enum InputEvent {
    /// A key that carries a character.
    Char(char),
    /// Any other key: an arrow, Enter, a function key.
    OtherKey,
    /// Something the mouse did.
    Mouse,
    /// The terminal now has this many columns and rows.
    Resize(u16, u16),
}

/// A game as a mathematical value.
pub struct GameState {
    /// The secret word, fixed for the session.
    pub word: Seq<char>,
    /// Every letter entered so far, in order, repeats included.
    pub guessed: Seq<char>,
    /// The number of wrong guesses so far.
    pub errors: nat,
}

/// The letter that an event enters into the game, if it enters one: the
/// character of a key press, provided it is alphabetic. It is taken as
/// typed, in whatever case.
pub open spec fn accepted_letter(event: InputEvent) -> Option<char> {
    match event {
        InputEvent::Char(c) => if alphabetic(c) {
            Some(c)
        } else {
            None
        },
        _ => None,
    }
}

impl GameState {
    /// The state a session starts in: nothing guessed, no errors.
    pub open spec fn start(word: Seq<char>) -> GameState {
        GameState { word, guessed: Seq::empty(), errors: 0 }
    }

    /// The error count is the number of guesses so far that are not in the
    /// word.
    pub open spec fn consistent(self) -> bool {
        self.errors == miss_count(self.word, self.guessed)
    }

    /// The state after the letter `c` is guessed: the letter is recorded,
    /// and counted as an error if the word does not contain it.
    pub open spec fn guess(self, c: char) -> GameState {
        GameState {
            word: self.word,
            guessed: self.guessed.push(c),
            errors: if self.word.contains(c) {
                self.errors
            } else {
                self.errors + 1
            },
        }
    }

    /// The state after the letters of `guesses` are guessed one after the
    /// other.
    pub open spec fn play(self, guesses: Seq<char>) -> GameState
        decreases guesses.len(),
    {
        if guesses.len() == 0 {
            self
        } else {
            self.play(guesses.drop_last()).guess(guesses.last())
        }
    }

    /// The state after an input event: a guess if the event enters a
    /// letter, no change otherwise.
    pub open spec fn step(self, event: InputEvent) -> GameState {
        match accepted_letter(event) {
            Some(c) => self.guess(c),
            None => self,
        }
    }

    /// Where the game stands. Losing is tested first: with six errors the
    /// game is lost even if the word is complete.
    pub open spec fn outcome(self) -> Outcome {
        if self.errors >= MAX_ERRORS {
            Outcome::Lost
        } else if all_revealed(self.word, self.guessed) {
            Outcome::Won
        } else {
            Outcome::Playing
        }
    }
}

/// A session starts with a count that agrees with its (empty) record of
/// guesses.
pub proof fn lemma_start_consistent(word: Seq<char>)
    ensures
        GameState::start(word).consistent(),
{
    lemma_miss_count_empty(word);
}

/// A guess keeps the error count in agreement with the record of guesses,
/// never lowers it, and raises it by exactly one when the letter is not in
/// the word. The word stays the same.
pub proof fn lemma_guess(state: GameState, c: char)
    requires
        state.consistent(),
    ensures
        state.guess(c).consistent(),
        state.guess(c).word == state.word,
        state.guess(c).errors >= state.errors,
        state.word.contains(c) ==> state.guess(c).errors == state.errors,
        !state.word.contains(c) ==> state.guess(c).errors == state.errors + 1,
{
    lemma_miss_count_push(state.word, state.guessed, c);
}

/// An event that enters no letter (a key without an alphabetic character,
/// the mouse, a resize) changes nothing; any event keeps the error count in
/// agreement with the guesses and never lowers it.
pub proof fn lemma_step(state: GameState, event: InputEvent)
    requires
        state.consistent(),
    ensures
        accepted_letter(event) is None ==> state.step(event) == state,
        !(event is Char) ==> state.step(event) == state,
        state.step(event).consistent(),
        state.step(event).errors >= state.errors,
{
    if let Some(c) = accepted_letter(event) {
        lemma_guess(state, c);
    }
}

/// After any sequence of guesses from the start, the letters on record are
/// those guesses, and the error count is the number of them, repeats
/// included, that are not in the word.
pub proof fn lemma_errors_count_misses(word: Seq<char>, guesses: Seq<char>)
    ensures
        GameState::start(word).play(guesses).word == word,
        GameState::start(word).play(guesses).guessed == guesses,
        GameState::start(word).play(guesses).errors == miss_count(word, guesses),
    decreases guesses.len(),
{
    if guesses.len() == 0 {
        lemma_miss_count_empty(word);
        assert(guesses =~= Seq::<char>::empty());
    } else {
        lemma_errors_count_misses(word, guesses.drop_last());
        lemma_miss_count_push(word, guesses.drop_last(), guesses.last());
        assert(guesses.drop_last().push(guesses.last()) =~= guesses);
    }
}

/// The game is lost exactly when six or more errors were made, whatever
/// has been revealed; and it is won exactly when fewer were made and every
/// letter of the word has been guessed.
pub proof fn lemma_outcome(state: GameState)
    ensures
        state.outcome() == Outcome::Lost <==> state.errors >= MAX_ERRORS,
        state.outcome() == Outcome::Won <==> state.errors < MAX_ERRORS && all_revealed(
            state.word,
            state.guessed,
        ),
{
}

/// Guessing a letter of the word never loses a game that was not lost, and
/// what was revealed stays revealed: a game that was won stays won under
/// right guesses.
pub proof fn lemma_right_guess_is_safe(state: GameState, c: char)
    requires
        state.word.contains(c),
    ensures
        state.outcome() != Outcome::Lost ==> state.guess(c).outcome() != Outcome::Lost,
        state.outcome() == Outcome::Won ==> state.guess(c).outcome() == Outcome::Won,
{
    assert forall|i: int| 0 <= i < state.word.len() && state.guessed.contains(
        state.word[i],
    ) implies state.guessed.push(c).contains(#[trigger] state.word[i]) by {
        let j: int = choose|j: int|
            0 <= j < state.guessed.len() && state.guessed[j] == state.word[i];
        assert(state.guessed.push(c)[j] == state.word[i]);
    }
}

/// A lost game stays lost, whatever comes next.
pub proof fn lemma_lost_stays_lost(state: GameState, event: InputEvent)
    requires
        state.outcome() == Outcome::Lost,
    ensures
        state.step(event).outcome() == Outcome::Lost,
{
}

/// In a game played turn by turn, losing and winning never fall together:
/// one step after a state in which the game was still on, the sixth error
/// and the last missing letter cannot both be there, because the guess
/// that adds an error reveals nothing.
pub proof fn lemma_loss_and_win_exclude(state: GameState, event: InputEvent)
    requires
        state.outcome() == Outcome::Playing,
    ensures
        !(state.step(event).errors >= MAX_ERRORS && all_revealed(
            state.step(event).word,
            state.step(event).guessed,
        )),
{
    if let Some(c) = accepted_letter(event) {
        if !state.word.contains(c) {
            let i: int = choose|i: int|
                0 <= i < state.word.len() && !state.guessed.contains(#[trigger] state.word[i]);
            assert(!state.guessed.push(c).contains(state.word[i]));
        }
    }
}

} // verus!
