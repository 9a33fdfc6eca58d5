use hangman_game::render::draw_word;

#[test]
fn word_line_masks_everything_before_the_first_guess() {
    assert_eq!(draw_word("cat", &[]), "_ _ _ \n");
}

#[test]
fn word_line_reveals_guessed_letters_in_place() {
    assert_eq!(draw_word("cat", &['c']), "c _ _ \n");
    assert_eq!(draw_word("cat", &['t', 'c']), "c _ t \n");
    assert_eq!(draw_word("cat", &['a', 't', 'c']), "c a t \n");
}

#[test]
fn word_line_reveals_every_occurrence_of_a_letter() {
    assert_eq!(draw_word("banana", &['a']), "_ a _ a _ a \n");
    assert_eq!(draw_word("banana", &['n', 'b']), "b _ n _ n _ \n");
}

#[test]
fn word_line_ignores_wrong_and_repeated_guesses() {
    assert_eq!(draw_word("dog", &['x', 'y', 'x', 'z']), "_ _ _ \n");
    assert_eq!(draw_word("dog", &['o', 'x', 'o', 'o']), "_ o _ \n");
}

#[test]
fn word_line_of_the_empty_word_is_a_bare_line_feed() {
    assert_eq!(draw_word("", &[]), "\n");
    assert_eq!(draw_word("", &['a', 'b']), "\n");
}

#[test]
fn word_line_does_not_fold_case() {
    assert_eq!(draw_word("cat", &['C', 'A', 'T']), "_ _ _ \n");
    assert_eq!(draw_word("Cat", &['c', 'a', 't']), "_ a t \n");
    assert_eq!(draw_word("Cat", &['C']), "C _ _ \n");
}

#[test]
fn word_line_counts_characters_not_bytes() {
    assert_eq!(draw_word("über", &['r']), "_ _ _ r \n");
    assert_eq!(draw_word("über", &['ü', 'e']), "ü _ e _ \n");
}

#[test]
fn word_line_shows_an_unguessed_underscore_as_it_would_a_mask() {
    assert_eq!(draw_word("a_b", &['a']), "a _ _ \n");
    assert_eq!(draw_word("a_b", &['_', 'b']), "_ _ b \n");
}

#[test]
fn word_line_keeps_length_and_order_of_the_word() {
    let word = "hangman";
    let guessed = ['n', 'a', 'q'];
    let line: Vec<char> = draw_word(word, &guessed).chars().collect();
    let letters: Vec<char> = word.chars().collect();
    assert_eq!(line.len(), 2 * letters.len() + 1);
    assert_eq!(line[line.len() - 1], '\n');
    for (i, letter) in letters.iter().enumerate() {
        if guessed.contains(letter) {
            assert_eq!(line[2 * i], *letter);
        } else {
            assert_eq!(line[2 * i], '_');
        }
        assert_eq!(line[2 * i + 1], ' ');
    }
}
