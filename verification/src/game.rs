//! A game in progress, as a value that each guess and each input event
//! turns into the next.

use vstd::prelude::*;
use vstd::string::StringExecFns;
use crate::letters::{
    all_guessed, lemma_miss_count_bound, lemma_miss_count_empty, lemma_miss_count_push,
    miss_count, word_contains,
};
use crate::render::{draw_interface, frame_view, interface, DrawCommand};
use crate::state::{accepted_letter, GameState, InputEvent, Outcome, MAX_ERRORS};

verus! {

/// A game in progress: the secret word, the letters guessed and the count
/// of wrong guesses. The count always agrees with the guesses.
#[derive(Debug)]
pub struct Game {
    word: String,
    guessed_letters: Vec<char>,
    errors: usize,
}

impl View for Game {
    type V = GameState;

    closed spec fn view(&self) -> GameState {
        GameState {
            word: self.word@,
            guessed: self.guessed_letters@,
            errors: self.errors as nat,
        }
    }
}

/// The letter that `event` enters into the game, if it enters one.
pub fn letter_of(event: InputEvent) -> (letter: Option<char>)
    ensures
        letter == accepted_letter(event),
{
    match event {
        InputEvent::Char(c) => if c.is_alphabetic() {
            Some(c)
        } else {
            None
        },
        _ => None,
    }
}

impl Game {
    #[verifier::type_invariant]
    spec fn counted(&self) -> bool {
        self.errors == miss_count(self.word@, self.guessed_letters@)
    }

    /// A new game on `word`: nothing guessed, no errors.
    pub fn new(word: &str) -> (game: Game)
        ensures
            game@ == GameState::start(word@),
            game@.consistent(),
    {
        proof {
            lemma_miss_count_empty(word@);
        }
        Game { word: String::from_str(word), guessed_letters: Vec::new(), errors: 0 }
    }

    /// The secret word.
    pub fn word(&self) -> (word: &str)
        ensures
            word@ == self@.word,
    {
        self.word.as_str()
    }

    /// Every letter entered so far, in order, repeats included.
    pub fn guessed_letters(&self) -> (letters: &[char])
        ensures
            letters@ == self@.guessed,
    {
        self.guessed_letters.as_slice()
    }

    /// The number of wrong guesses so far: the number of guessed letters,
    /// repeats included, that are not in the word.
    pub fn errors(&self) -> (errors: usize)
        ensures
            errors == self@.errors,
            errors == miss_count(self@.word, self@.guessed),
    {
        proof {
            use_type_invariant(self);
        }
        self.errors
    }

    /// The game after the letter `c` is guessed: the letter is recorded,
    /// and counted as an error if the word does not contain it.
    pub fn guess(self, c: char) -> (next: Game)
        ensures
            next@ == self@.guess(c),
            next@.consistent(),
    {
        proof {
            use_type_invariant(&self);
            lemma_miss_count_push(self.word@, self.guessed_letters@, c);
        }
        let hit = word_contains(self.word.as_str(), c);
        let Game { word, mut guessed_letters, errors } = self;
        guessed_letters.push(c);
        proof {
            // The misses are no more than the guesses, and those fit a vector.
            lemma_miss_count_bound(word@, guessed_letters@);
            assert(guessed_letters.len() <= usize::MAX);
        }
        let errors: usize = if hit {
            errors
        } else {
            errors + 1
        };
        Game { word, guessed_letters, errors }
    }

    /// Where the game stands: lost with six errors or more, else won if
    /// every letter of the word has been guessed, else still on.
    pub fn outcome(&self) -> (outcome: Outcome)
        ensures
            outcome == self@.outcome(),
    {
        if self.errors >= MAX_ERRORS {
            Outcome::Lost
        } else if all_guessed(self.word.as_str(), self.guessed_letters.as_slice()) {
            Outcome::Won
        } else {
            Outcome::Playing
        }
    }

    /// One turn of the game: the state after `event`, and where the game
    /// then stands. An event that enters no letter leaves the state as it
    /// was.
    pub fn step(self, event: InputEvent) -> (next: (Game, Outcome))
        ensures
            next.0@ == self@.step(event),
            next.0@.consistent(),
            next.1 == next.0@.outcome(),
    {
        proof {
            use_type_invariant(&self);
        }
        let game = match letter_of(event) {
            Some(c) => self.guess(c),
            None => self,
        };
        let outcome = game.outcome();
        (game, outcome)
    }

    /// The screen for the game as it stands. It depends on the state alone:
    /// drawn twice without a change in between, it is the same frame.
    pub fn frame(&self) -> (frame: Vec<DrawCommand>)
        ensures
            frame_view(frame@) == interface(self@.word, self@.guessed, self@.errors),
    {
        draw_interface(self.word.as_str(), self.guessed_letters.as_slice(), self.errors)
    }
}

} // verus!
