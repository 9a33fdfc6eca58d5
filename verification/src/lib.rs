//! Hangman: the rules of the game, the state machine that a session runs
//! through, and the screen it shows, each with a contract that Verus proves.
//!
//! - [`state`]: the game as a mathematical state machine, and its laws.
//! - [`game`]: the game as a value that each input event turns into the
//!   next.
//! - [`render`]: the gallows, the word line and the frame, as text and as
//!   terminal commands.
//! - [`words`]: picking the secret word from a word list.
//! - [`letters`]: which letters are in the word, and which have been
//!   guessed.
//! - [`text`]: what is taken on trust from the standard library.
//!
//! The library reads no file and touches no terminal: it is handed lines
//! and events, and hands back words, states and frames.

pub mod game;
pub mod letters;
pub mod render;
pub mod state;
pub mod text;
pub mod words;
