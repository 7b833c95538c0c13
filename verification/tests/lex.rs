use mcvm::lex::{
    is_ident, is_num, is_whitespace, lex, lex_string_char, reduce_tokens, LexError, Side,
    StrLexResult, TextPos, Token,
};

fn assert_tokens(text: &str, expected: Vec<Token>) {
    match lex(text) {
        Ok(lexed) => {
            assert_eq!(lexed.len(), expected.len());
            for ((left, _), right) in lexed.iter().zip(expected) {
                assert_eq!(left, &right);
            }
        }
        Err(e) => {
            println!("{e:?}");
            panic!();
        }
    }
}

fn positions(text: &str) -> Vec<(usize, usize)> {
    lex(text)
        .unwrap()
        .iter()
        .map(|(_, pos)| (pos.line(), pos.column()))
        .collect()
}

#[test]
fn test_chars() {
    assert!(is_ident('a', false));
    assert!(is_ident('a', true));
    assert!(is_ident('B', false));
    assert!(is_ident('B', true));
    assert!(is_ident('_', false));
    assert!(is_ident('_', true));

    assert!(is_ident('5', false));
    assert!(!is_ident('2', true));

    assert!(is_num('8', false));
    assert!(is_num('8', true));
    assert!(!is_num('t', false));
    assert!(!is_num('t', true));
    assert!(!is_num('.', false));
    assert!(!is_num('.', true));
    assert!(is_num('-', true));
    assert!(!is_num('-', false));

    assert!(is_whitespace(' '));
    assert!(is_whitespace('\n'));
    assert!(!is_whitespace('a'));
    assert!(!is_whitespace('%'));
}

#[test]
fn test_semicolon() {
    assert_tokens(";;", vec![Token::Semicolon, Token::Semicolon]);
}

#[test]
fn test_string_chars() {
    assert_eq!(lex_string_char('d', false), StrLexResult::Append);
    assert_eq!(lex_string_char('\'', false), StrLexResult::Append);
    assert_eq!(lex_string_char('"', false), StrLexResult::End);
    assert_eq!(lex_string_char('"', true), StrLexResult::Append);
    assert_eq!(lex_string_char('\\', false), StrLexResult::Escape);
    assert_eq!(lex_string_char('\\', true), StrLexResult::Append);
}

#[test]
fn test_string() {
    assert_tokens("\"Hello\"", vec![Token::Str("Hello".into())]);
}

#[test]
fn test_combo() {
    assert_tokens(
        "\"Uno\"; \"Dos\"; \"Tres\"; Identifier",
        vec![
            Token::Str("Uno".into()),
            Token::Semicolon,
            Token::Whitespace,
            Token::Str("Dos".into()),
            Token::Semicolon,
            Token::Whitespace,
            Token::Str("Tres".into()),
            Token::Semicolon,
            Token::Whitespace,
            Token::Ident("Identifier".into()),
        ],
    );
}

#[test]
fn test_all() {
    assert_tokens(
        "\"Hello\"; ident{}@routine[]$var():-1000,|# comment",
        vec![
            Token::Str("Hello".into()),
            Token::Semicolon,
            Token::Whitespace,
            Token::Ident("ident".into()),
            Token::Curly(Side::Left),
            Token::Curly(Side::Right),
            Token::At,
            Token::Ident("routine".into()),
            Token::Square(Side::Left),
            Token::Square(Side::Right),
            Token::Variable("var".into()),
            Token::Paren(Side::Left),
            Token::Paren(Side::Right),
            Token::Colon,
            Token::Num(-1000),
            Token::Comma,
            Token::Pipe,
            Token::Comment(" comment".into()),
        ],
    );
}

#[test]
fn test_comment() {
    assert_tokens(
        "\"Foo\" # Comment\n \"Bar\"",
        vec![
            Token::Str("Foo".into()),
            Token::Whitespace,
            Token::Comment(" Comment".into()),
            Token::Whitespace,
            Token::Str("Bar".into()),
        ],
    );
}

#[test]
fn test_num() {
    assert_tokens(
        "12345;888;0;-10",
        vec![
            Token::Num(12345),
            Token::Semicolon,
            Token::Num(888),
            Token::Semicolon,
            Token::Num(0),
            Token::Semicolon,
            Token::Num(-10),
        ],
    );
}

#[test]
fn lex_empty_text_has_no_tokens() {
    assert_tokens("", vec![]);
}

#[test]
fn lex_negative_number_is_one_token() {
    assert_tokens("-10", vec![Token::Num(-10)]);
}

#[test]
fn lex_lone_minus_fails() {
    assert_eq!(
        lex("- a"),
        Err(LexError::InvalidNumber("-".into(), TextPos(1, 1)))
    );
    assert_eq!(
        lex("-a"),
        Err(LexError::InvalidNumber("-".into(), TextPos(1, 1)))
    );
    assert_eq!(
        lex("-"),
        Err(LexError::InvalidNumber("-".into(), TextPos(1, 1)))
    );
    assert_eq!(
        lex("5-"),
        Err(LexError::InvalidNumber("-".into(), TextPos(1, 2)))
    );
}

#[test]
fn lex_number_limits() {
    assert_tokens("9223372036854775807", vec![Token::Num(i64::MAX)]);
    assert_tokens("-9223372036854775808", vec![Token::Num(i64::MIN)]);
    assert!(matches!(
        lex("9223372036854775808"),
        Err(LexError::InvalidNumber(..))
    ));
    assert!(matches!(
        lex("-9223372036854775809"),
        Err(LexError::InvalidNumber(..))
    ));
    assert!(matches!(
        lex("99999999999999999999999999999999999999999999"),
        Err(LexError::InvalidNumber(..))
    ));
    assert_tokens("007", vec![Token::Num(7)]);
}

#[test]
fn lex_non_ascii_digit_is_an_invalid_number() {
    assert!(matches!(lex("\u{0663}"), Err(LexError::InvalidNumber(..))));
}

#[test]
fn lex_unknown_character_fails() {
    assert_eq!(
        lex("a %"),
        Err(LexError::UnexpectedChar('%', TextPos(1, 2)))
    );
    assert_eq!(
        lex("a\n\n ^"),
        Err(LexError::UnexpectedChar('^', TextPos(3, 2)))
    );
}

#[test]
fn lex_unterminated_string_yields_partial_token() {
    assert_tokens("\"abc", vec![Token::Str("abc".into())]);
    assert_tokens("\"", vec![Token::Str("".into())]);
    assert_tokens("\"abc\\", vec![Token::Str("abc".into())]);
}

#[test]
fn lex_string_escapes_are_verbatim() {
    assert_tokens("\"a\\\"b\"", vec![Token::Str("a\"b".into())]);
    assert_tokens("\"a\\nb\"", vec![Token::Str("anb".into())]);
    assert_tokens("\"a\\\\\"", vec![Token::Str("a\\".into())]);
}

#[test]
fn lex_variable() {
    assert_tokens(
        "$foo_1 $",
        vec![
            Token::Variable("foo_1".into()),
            Token::Whitespace,
            Token::Variable("".into()),
        ],
    );
    assert_tokens(
        "$1",
        vec![Token::Variable("".into()), Token::Num(1)],
    );
}

#[test]
fn lex_whitespace_coalesces() {
    assert_tokens(
        " \t\n  a",
        vec![Token::Whitespace, Token::Ident("a".into())],
    );
}

#[test]
fn lex_comment_consumes_its_newline() {
    assert_tokens(
        "#x\n#y\na",
        vec![
            Token::Comment("x".into()),
            Token::Comment("y".into()),
            Token::Ident("a".into()),
        ],
    );
}

#[test]
fn lex_positions() {
    assert_eq!(positions(";;"), vec![(1, 0), (1, 1)]);
    // A run is recorded where the character after it stands.
    assert_eq!(positions("ab;"), vec![(1, 2), (1, 2)]);
    // On later lines columns count from the newline.
    assert_eq!(positions("a\nbc;"), vec![(1, 1), (2, 1), (2, 3), (2, 3)]);
    // A token cut off by the end of the text.
    assert_eq!(positions("abc"), vec![(1, 3)]);
    assert_eq!(positions("a\nbc"), vec![(1, 1), (2, 1), (2, 3)]);
    // A closed string is recorded at its closing quote.
    assert_eq!(positions("\"ab\";"), vec![(1, 3), (1, 4)]);
    // A comment is recorded at the newline that ends it.
    assert_eq!(positions("#ab\n;"), vec![(1, 3), (2, 1)]);
}

#[test]
fn lex_end_position_counts_bytes() {
    assert_eq!(positions("\u{e9}\u{e9}"), vec![(1, 4)]);
    assert_eq!(positions("\u{e9}\u{e9};"), vec![(1, 2), (1, 2)]);
}

#[test]
fn reduce_drops_whitespace_and_comments_in_order() {
    let tokens = lex("a ; # note\n b \"c\" -1").unwrap();
    let reduced: Vec<Token> = reduce_tokens(&tokens)
        .into_iter()
        .map(|(tok, _)| tok.clone())
        .collect();
    assert_eq!(
        reduced,
        vec![
            Token::Ident("a".into()),
            Token::Semicolon,
            Token::Ident("b".into()),
            Token::Str("c".into()),
            Token::Num(-1),
        ]
    );
}

#[test]
fn reduce_drops_empty_tokens() {
    let tokens = vec![
        (Token::Empty, TextPos(1, 0)),
        (Token::Colon, TextPos(1, 1)),
        (Token::Whitespace, TextPos(1, 2)),
    ];
    let reduced = reduce_tokens(&tokens);
    assert_eq!(reduced.len(), 1);
    assert_eq!(reduced[0], &(Token::Colon, TextPos(1, 1)));
}

#[test]
fn token_as_string() {
    assert_eq!(Token::Empty.as_string(), "none");
    assert_eq!(Token::Whitespace.as_string(), " ");
    assert_eq!(Token::Semicolon.as_string(), ";");
    assert_eq!(Token::Variable("v".into()).as_string(), "$v");
    assert_eq!(Token::Curly(Side::Left).as_string(), "{");
    assert_eq!(Token::Angle(Side::Right).as_string(), ">");
    assert_eq!(Token::Comment("text".into()).as_string(), "# text");
    assert_eq!(Token::Ident("name".into()).as_string(), "name");
    assert_eq!(Token::Num(-120).as_string(), "-120");
    assert_eq!(Token::Num(0).as_string(), "0");
    assert_eq!(Token::Num(i64::MIN).as_string(), "-9223372036854775808");
    assert_eq!(Token::Str("hi".into()).as_string(), "\"hi\"");
}

#[test]
fn text_pos_to_string() {
    assert_eq!(TextPos(12, 0).to_string(), "(12:0)");
}
