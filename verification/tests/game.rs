use hangman_game::game::{letter_of, Game};
use hangman_game::render::final_message;
use hangman_game::state::{InputEvent, Outcome, MAX_ERRORS};

fn play(word: &str, keys: &[char]) -> (Game, Vec<Outcome>) {
    let mut game = Game::new(word);
    let mut outcomes = Vec::new();
    for key in keys {
        let (next, outcome) = game.step(InputEvent::Char(*key));
        game = next;
        outcomes.push(outcome);
    }
    (game, outcomes)
}

#[test]
fn max_errors_is_six() {
    assert_eq!(MAX_ERRORS, 6);
}

#[test]
fn new_game_has_no_guesses_and_no_errors() {
    let game = Game::new("cat");
    assert_eq!(game.word(), "cat");
    assert!(game.guessed_letters().is_empty());
    assert_eq!(game.errors(), 0);
    assert_eq!(game.outcome(), Outcome::Playing);
}

#[test]
fn three_right_guesses_win() {
    let (game, outcomes) = play("cat", &['c', 'a', 't']);
    assert_eq!(outcomes, vec![Outcome::Playing, Outcome::Playing, Outcome::Won]);
    assert_eq!(game.errors(), 0);
    assert_eq!(game.guessed_letters(), &['c', 'a', 't']);
    assert_eq!(game.outcome(), Outcome::Won);
    assert_eq!(
        final_message(game.word(), game.outcome()),
        Some("Congratulations! You won!".to_string())
    );
}

#[test]
fn six_wrong_guesses_lose() {
    let (game, outcomes) = play("dog", &['x', 'y', 'z', 'q', 'w', 'e']);
    assert_eq!(
        outcomes,
        vec![
            Outcome::Playing,
            Outcome::Playing,
            Outcome::Playing,
            Outcome::Playing,
            Outcome::Playing,
            Outcome::Lost
        ]
    );
    assert_eq!(game.errors(), 6);
    assert_eq!(game.outcome(), Outcome::Lost);
    assert_eq!(
        final_message(game.word(), game.outcome()),
        Some("You lost! The word was: dog".to_string())
    );
}

#[test]
fn a_wrong_guess_in_between_does_not_stop_the_win() {
    let game = Game::new("go");
    let (game, outcome) = game.step(InputEvent::Char('g'));
    assert_eq!(outcome, Outcome::Playing);
    assert_eq!(game.errors(), 0);
    let (game, outcome) = game.step(InputEvent::Char('x'));
    assert_eq!(outcome, Outcome::Playing);
    assert_eq!(game.errors(), 1);
    let (game, outcome) = game.step(InputEvent::Char('o'));
    assert_eq!(outcome, Outcome::Won);
    assert_eq!(game.errors(), 1);
    assert_eq!(game.guessed_letters(), &['g', 'x', 'o']);
}

#[test]
fn guess_records_the_letter_and_counts_a_miss() {
    let game = Game::new("cat").guess('z');
    assert_eq!(game.guessed_letters(), &['z']);
    assert_eq!(game.errors(), 1);
    let game = game.guess('a');
    assert_eq!(game.guessed_letters(), &['z', 'a']);
    assert_eq!(game.errors(), 1);
    assert_eq!(game.word(), "cat");
}

#[test]
fn repeated_wrong_guess_counts_each_time() {
    let (game, _) = play("cat", &['z', 'z', 'z']);
    assert_eq!(game.errors(), 3);
    assert_eq!(game.guessed_letters(), &['z', 'z', 'z']);
}

#[test]
fn repeated_right_guess_is_recorded_and_costs_nothing() {
    let (game, outcomes) = play("cat", &['c', 'c', 'c']);
    assert_eq!(game.errors(), 0);
    assert_eq!(game.guessed_letters(), &['c', 'c', 'c']);
    assert_eq!(outcomes, vec![Outcome::Playing, Outcome::Playing, Outcome::Playing]);
}

#[test]
fn errors_equal_the_guesses_that_are_not_in_the_word() {
    let word = "hangman";
    let keys = ['h', 'x', 'a', 'x', 'q', 'n', 'H', 'g', 'z'];
    let mut game = Game::new(word);
    for (made, key) in keys.iter().enumerate() {
        game = game.guess(*key);
        let misses = keys[..=made].iter().filter(|c| !word.contains(**c)).count();
        assert_eq!(game.errors(), misses);
        assert_eq!(game.guessed_letters(), &keys[..=made]);
    }
    assert_eq!(game.errors(), 5);
}

#[test]
fn guesses_are_case_sensitive() {
    let (game, outcomes) = play("cat", &['C', 'A', 'T']);
    assert_eq!(game.errors(), 3);
    assert_eq!(outcomes, vec![Outcome::Playing, Outcome::Playing, Outcome::Playing]);
    let (game, outcomes) = play("Cat", &['c', 'C']);
    assert_eq!(game.errors(), 1);
    assert_eq!(outcomes, vec![Outcome::Playing, Outcome::Playing]);
}

#[test]
fn the_sixth_error_loses_and_not_the_fifth() {
    let (game, outcomes) = play("dog", &['a', 'b', 'c', 'e', 'f']);
    assert_eq!(game.errors(), 5);
    assert_eq!(outcomes[4], Outcome::Playing);
    let (game, outcome) = game.step(InputEvent::Char('h'));
    assert_eq!(game.errors(), 6);
    assert_eq!(outcome, Outcome::Lost);
}

#[test]
fn five_errors_and_then_the_last_letter_win() {
    let (game, outcomes) = play("hi", &['a', 'b', 'c', 'd', 'e', 'h', 'i']);
    assert_eq!(game.errors(), 5);
    assert_eq!(outcomes[6], Outcome::Won);
}

#[test]
fn losing_comes_before_winning() {
    let (game, outcomes) = play("hi", &['h', 'i', 'a', 'b', 'c', 'd', 'e', 'f']);
    assert_eq!(outcomes[1], Outcome::Won);
    assert_eq!(outcomes[6], Outcome::Won);
    assert_eq!(outcomes[7], Outcome::Lost);
    assert_eq!(game.errors(), 6);
    assert_eq!(game.outcome(), Outcome::Lost);
}

#[test]
fn the_error_count_is_not_clamped() {
    let (game, outcomes) = play("dog", &['a', 'b', 'c', 'e', 'f', 'h', 'i', 'j']);
    assert_eq!(game.errors(), 8);
    assert_eq!(outcomes[7], Outcome::Lost);
}

#[test]
fn keys_without_a_letter_change_nothing() {
    let game = Game::new("cat").guess('c');
    for key in ['1', ' ', '!', '_', '\n', '-'] {
        let (next, outcome) = Game::new("cat").guess('c').step(InputEvent::Char(key));
        assert_eq!(outcome, Outcome::Playing);
        assert_eq!(next.errors(), game.errors());
        assert_eq!(next.guessed_letters(), game.guessed_letters());
        assert_eq!(next.word(), game.word());
    }
}

#[test]
fn other_events_change_nothing() {
    for event in [InputEvent::OtherKey, InputEvent::Mouse, InputEvent::Resize(80, 24)] {
        let (next, outcome) = Game::new("cat").guess('x').step(event);
        assert_eq!(outcome, Outcome::Playing);
        assert_eq!(next.errors(), 1);
        assert_eq!(next.guessed_letters(), &['x']);
    }
}

#[test]
fn an_ignored_event_still_reports_a_finished_game() {
    let (game, _) = play("cat", &['c', 'a', 't']);
    let (game, outcome) = game.step(InputEvent::Mouse);
    assert_eq!(outcome, Outcome::Won);
    assert_eq!(game.guessed_letters(), &['c', 'a', 't']);
}

#[test]
fn the_empty_word_is_won_at_the_first_event() {
    let game = Game::new("");
    let (game, outcome) = game.step(InputEvent::Resize(10, 10));
    assert_eq!(outcome, Outcome::Won);
    assert_eq!(game.errors(), 0);
    let (game, outcome) = Game::new("").step(InputEvent::Char('a'));
    assert_eq!(outcome, Outcome::Won);
    assert_eq!(game.errors(), 1);
}

#[test]
fn letter_of_takes_alphabetic_characters_as_typed() {
    assert_eq!(letter_of(InputEvent::Char('a')), Some('a'));
    assert_eq!(letter_of(InputEvent::Char('Z')), Some('Z'));
    assert_eq!(letter_of(InputEvent::Char('é')), Some('é'));
    assert_eq!(letter_of(InputEvent::Char('京')), Some('京'));
}

#[test]
fn letter_of_refuses_everything_else() {
    assert_eq!(letter_of(InputEvent::Char('7')), None);
    assert_eq!(letter_of(InputEvent::Char(' ')), None);
    assert_eq!(letter_of(InputEvent::Char('?')), None);
    assert_eq!(letter_of(InputEvent::Char('💝')), None);
    assert_eq!(letter_of(InputEvent::OtherKey), None);
    assert_eq!(letter_of(InputEvent::Mouse), None);
    assert_eq!(letter_of(InputEvent::Resize(1, 1)), None);
}

#[test]
fn letters_outside_ascii_are_guesses_like_any_other() {
    let (game, outcomes) = play("über", &['ü', 'b', 'é', 'e', 'r']);
    assert_eq!(game.errors(), 1);
    assert_eq!(outcomes[4], Outcome::Won);
}
