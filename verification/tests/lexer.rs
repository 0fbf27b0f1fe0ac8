use il4il::assembly::lexer::tokenize;
use il4il::assembly::lexer::Line;
use il4il::assembly::lexer::Token;
use il4il::assembly::location::Location;
use il4il::assembly::location::Number;

fn number(n: usize) -> Number {
    Number::new(n).unwrap()
}

#[test]
fn simple_directive_produces_correct_output() {
    let output = tokenize("\n.section {\n}\n");

    assert_eq!(
        output.tokens(),
        &[
            (Token::Directive("section".to_string()), 1..9),
            (Token::OpenBracket, 10..11),
            (Token::CloseBracket, 12..13),
        ]
    );

    assert_eq!(
        output.offsets().lines(),
        &[
            Line::new(0..0, number(1)),
            Line::new(1..11, number(2)),
            Line::new(12..13, number(3)),
        ]
    );

    assert_eq!(
        output.offsets().locations(),
        vec![
            Location::new(Number::start(), number(1)),
            Location::new(number(2), number(1)),
            Location::new(number(2), number(2)),
            Location::new(number(2), number(3)),
            Location::new(number(2), number(4)),
            Location::new(number(2), number(5)),
            Location::new(number(2), number(6)),
            Location::new(number(2), number(7)),
            Location::new(number(2), number(8)),
            Location::new(number(2), number(9)),
            Location::new(number(2), number(10)),
            Location::new(number(2), number(11)),
            Location::new(number(3), number(1)),
            Location::new(number(3), number(2)),
        ]
    )
}

#[test]
fn lines_are_correct_for_input_with_newline_only() {
    assert_eq!(tokenize("\n").offsets().lines(), &[Line::new(0..0, number(1))]);
}

#[test]
fn lines_are_correct_when_no_trailing_newline() {
    assert_eq!(
        tokenize("\n\n.section").offsets().lines(),
        &[
            Line::new(0..0, number(1)),
            Line::new(1..1, number(2)),
            Line::new(2..10, number(3)),
        ]
    );
}

#[test]
fn documented_example_tokens() {
    assert_eq!(
        tokenize(".metadata {}").tokens(),
        &[
            (Token::Directive("metadata".to_string()), 0..9),
            (Token::OpenBracket, 10..11),
            (Token::CloseBracket, 11..12),
        ]
    );
}

#[test]
fn letters_and_digits_form_words_and_other_runs_are_unknown() {
    assert_eq!(
        tokenize("abc12 a-b ;").tokens(),
        &[
            (Token::Word("abc12".to_string()), 0..5),
            (Token::Unknown("a-b".to_string()), 6..9),
            (Token::Semicolon, 10..11),
        ]
    );
}

#[test]
fn dot_without_letters_is_unknown() {
    assert_eq!(tokenize(". .1").tokens(), &[(Token::Unknown(".".to_string()), 0..1), (Token::Unknown(".1".to_string()), 2..4)]);
}

#[test]
fn carriage_return_and_line_feed_end_one_line() {
    let output = tokenize("a\r\nb\rc");
    assert_eq!(
        output.offsets().lines(),
        &[
            Line::new(0..1, number(1)),
            Line::new(3..4, number(2)),
            Line::new(5..6, number(3)),
        ]
    );
    assert_eq!(output.offsets().byte_length(), 6);
}

#[test]
fn text_ending_with_carriage_return_and_line_feed_has_no_empty_last_line() {
    let output = tokenize("a\r\nb\r\n");
    assert_eq!(output.offsets().lines(), &[Line::new(0..1, number(1)), Line::new(3..4, number(2))]);
}

#[test]
fn byte_order_mark_is_skipped() {
    let output = tokenize("\u{FEFF};");
    assert_eq!(output.tokens(), &[(Token::Semicolon, 0..4)]);
    assert!(output.offsets().lines().is_empty());
}

#[test]
fn multibyte_characters_advance_offsets_by_their_length() {
    assert_eq!(
        tokenize("é {").tokens(),
        &[(Token::Word("é".to_string()), 0..2), (Token::OpenBracket, 3..4)]
    );
}

#[test]
fn token_text_round_trips_simple_tokens() {
    assert_eq!(Token::Directive("name".to_string()).to_text(), ".name");
    assert_eq!(Token::OpenBracket.to_text(), "{");
}

#[test]
fn unicode_whitespace_separates_words() {
    assert_eq!(
        tokenize("a\u{3000}b\u{85}c").tokens(),
        &[
            (Token::Word("a".to_string()), 0..1),
            (Token::Word("b".to_string()), 4..5),
            (Token::Word("c".to_string()), 7..8),
        ]
    );
}
