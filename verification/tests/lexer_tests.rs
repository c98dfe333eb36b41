use love_language::error::LoveError;
use love_language::lexer::{Lexer, Token};

fn lex(source: &str) -> Result<Vec<Token>, LoveError> {
    Lexer::new(source).tokenize()
}

fn lex_error(line: usize, column: usize) -> Result<Vec<Token>, LoveError> {
    Err(LoveError::Lexer(format!("Invalid token at line {}, column {}", line, column)))
}

fn every_plain_token() -> Vec<(Token, &'static str)> {
    vec![
        (Token::Heart, "heart"),
        (Token::Forever, "forever"),
        (Token::Devotion, "devotion"),
        (Token::Crush, "crush"),
        (Token::Butterflies, "butterflies"),
        (Token::Lonely, "lonely"),
        (Token::Dating, "dating"),
        (Token::Promise, "promise"),
        (Token::Whisper, "whisper"),
        (Token::Relationship, "relationship"),
        (Token::TypeNumber, "number"),
        (Token::TypeText, "text"),
        (Token::TypeFeeling, "feeling"),
        (Token::Yes, "yes"),
        (Token::No, "no"),
        (Token::Cuddle, "cuddle"),
        (Token::Breakup, "breakup"),
        (Token::Kiss, "kiss"),
        (Token::Split, "split"),
        (Token::Match, "match"),
        (Token::Soulmate, "soulmate"),
        (Token::Not, "not"),
        (Token::And, "and"),
        (Token::Or, "or"),
        (Token::GreaterThan, "admires"),
        (Token::GreaterThanEqual, "adores"),
        (Token::LessThan, "envies"),
        (Token::LessThanEqual, "yearns"),
        (Token::NotEqual, "heartbreak"),
        (Token::LParen, "("),
        (Token::RParen, ")"),
        (Token::LBrace, "{"),
        (Token::RBrace, "}"),
        (Token::Semicolon, ";"),
        (Token::Comma, ","),
        (Token::Colon, ":"),
        (Token::Arrow, "->"),
    ]
}

#[test]
fn empty_source_has_no_tokens() {
    assert_eq!(lex(""), Ok(vec![]));
}

#[test]
fn white_space_and_comments_give_no_tokens() {
    assert_eq!(lex("  \t\n\x0c  "), Ok(vec![]));
    assert_eq!(lex("// nothing here"), Ok(vec![]));
    assert_eq!(lex("// one\n// two\n"), Ok(vec![]));
    assert_eq!(lex("heart // the rest is ignored ) } \"\nx"), Ok(vec![
        Token::Heart,
        Token::Identifier("x".to_string()),
    ]));
}

#[test]
fn variable_declaration_is_tokenized() {
    assert_eq!(
        lex("heart x match 3 cuddle 4;"),
        Ok(vec![
            Token::Heart,
            Token::Identifier("x".to_string()),
            Token::Match,
            Token::Number(3),
            Token::Cuddle,
            Token::Number(4),
            Token::Semicolon,
        ])
    );
}

#[test]
fn every_keyword_and_operator_is_recognised() {
    for (token, text) in every_plain_token() {
        assert_eq!(lex(text), Ok(vec![token]), "lexing {:?}", text);
    }
}

#[test]
fn display_of_every_plain_token_is_its_spelling() {
    for (token, text) in every_plain_token() {
        assert_eq!(token.to_string(), text);
    }
    assert_eq!(Token::Error.to_string(), "ERROR");
}

#[test]
fn relexing_a_displayed_token_gives_the_token_back() {
    for (token, _) in every_plain_token() {
        assert_eq!(lex(&token.to_string()), Ok(vec![token]));
    }
    let others = vec![
        Token::Number(0),
        Token::Number(7),
        Token::Number(-7),
        Token::Number(1234567890),
        Token::Number(i64::MAX),
        Token::Number(i64::MIN),
        Token::Text(String::new()),
        Token::Text("hello, world".to_string()),
        Token::Text("two\nlines".to_string()),
        Token::Identifier("x".to_string()),
        Token::Identifier("_private9".to_string()),
        Token::Identifier("hearts".to_string()),
    ];
    for token in others {
        assert_eq!(lex(&token.to_string()), Ok(vec![token]));
    }
}

#[test]
fn display_of_tokens_with_a_payload() {
    assert_eq!(Token::Number(42).to_string(), "42");
    assert_eq!(Token::Number(-42).to_string(), "-42");
    assert_eq!(Token::Number(0).to_string(), "0");
    assert_eq!(Token::Number(i64::MIN).to_string(), "-9223372036854775808");
    assert_eq!(Token::Number(i64::MAX).to_string(), "9223372036854775807");
    assert_eq!(Token::Text("hi".to_string()).to_string(), "\"hi\"");
    assert_eq!(Token::Identifier("name".to_string()).to_string(), "name");
}

#[test]
fn keywords_win_over_names_only_when_spelled_exactly() {
    assert_eq!(lex("heart"), Ok(vec![Token::Heart]));
    assert_eq!(lex("hearts"), Ok(vec![Token::Identifier("hearts".to_string())]));
    assert_eq!(lex("hear"), Ok(vec![Token::Identifier("hear".to_string())]));
    assert_eq!(lex("Heart"), Ok(vec![Token::Identifier("Heart".to_string())]));
    assert_eq!(lex("heart_"), Ok(vec![Token::Identifier("heart_".to_string())]));
    assert_eq!(lex("or2"), Ok(vec![Token::Identifier("or2".to_string())]));
    assert_eq!(lex("_"), Ok(vec![Token::Identifier("_".to_string())]));
}

#[test]
fn numbers_take_an_optional_sign() {
    assert_eq!(lex("0"), Ok(vec![Token::Number(0)]));
    assert_eq!(lex("007"), Ok(vec![Token::Number(7)]));
    assert_eq!(lex("-5"), Ok(vec![Token::Number(-5)]));
    assert_eq!(lex("-0"), Ok(vec![Token::Number(0)]));
    assert_eq!(lex("5-3"), Ok(vec![Token::Number(5), Token::Number(-3)]));
    assert_eq!(lex("12abc"), Ok(vec![Token::Number(12), Token::Identifier("abc".to_string())]));
}

#[test]
fn numbers_at_the_limits_of_the_range() {
    assert_eq!(lex("9223372036854775807"), Ok(vec![Token::Number(i64::MAX)]));
    assert_eq!(lex("-9223372036854775808"), Ok(vec![Token::Number(i64::MIN)]));
    assert_eq!(lex("000000000000000000000000000001"), Ok(vec![Token::Number(1)]));
    assert_eq!(lex("9223372036854775808"), lex_error(1, 1));
    assert_eq!(lex("-9223372036854775809"), lex_error(1, 1));
    assert_eq!(lex("99999999999999999999999999"), lex_error(1, 1));
    assert_eq!(lex("x match 18446744073709551616;"), lex_error(1, 9));
}

#[test]
fn minus_alone_is_invalid_and_arrow_is_a_token() {
    assert_eq!(lex("->"), Ok(vec![Token::Arrow]));
    assert_eq!(lex("-"), lex_error(1, 1));
    assert_eq!(lex("- 5"), lex_error(1, 1));
    assert_eq!(lex("--5"), lex_error(1, 1));
    assert_eq!(lex("->5"), Ok(vec![Token::Arrow, Token::Number(5)]));
}

#[test]
fn texts_run_to_the_next_quote() {
    assert_eq!(lex("\"\""), Ok(vec![Token::Text(String::new())]));
    assert_eq!(lex("\"Hello Love!\""), Ok(vec![Token::Text("Hello Love!".to_string())]));
    assert_eq!(lex("\"a // b\""), Ok(vec![Token::Text("a // b".to_string())]));
    assert_eq!(lex("\"caf\u{e9} \u{1f49d}\""), Ok(vec![Token::Text("caf\u{e9} \u{1f49d}".to_string())]));
    assert_eq!(lex("\"a\"\"b\""), Ok(vec![
        Token::Text("a".to_string()),
        Token::Text("b".to_string()),
    ]));
    assert_eq!(lex("\"never closed"), lex_error(1, 1));
    assert_eq!(lex("x \""), lex_error(1, 3));
}

#[test]
fn an_invalid_character_is_reported_with_its_place() {
    assert_eq!(lex("@"), lex_error(1, 1));
    assert_eq!(lex("heart x match 3 + 4;"), lex_error(1, 17));
    assert_eq!(lex("heart x match 3;\n  $"), lex_error(2, 3));
    assert_eq!(lex("\n\n\n#"), lex_error(4, 1));
    assert_eq!(lex("a\n\"two\nlines\" ?"), lex_error(3, 8));
    assert_eq!(lex("x / y"), lex_error(1, 3));
    assert_eq!(lex("x\r\ny"), lex_error(1, 2));
    assert_eq!(lex("\u{e9}"), lex_error(1, 1));
    assert_eq!(lex("\"\u{e9}\u{e9}\" !"), lex_error(1, 6));
}

#[test]
fn nothing_comes_back_when_a_later_character_is_invalid() {
    assert_eq!(lex("heart x match 1; whisper x; ~"), lex_error(1, 29));
}

#[test]
fn a_scanner_can_be_run_again() {
    let mut lexer = Lexer::new("yes no");
    assert_eq!(lexer.tokenize(), Ok(vec![Token::Yes, Token::No]));
    assert_eq!(lexer.tokenize(), Ok(vec![Token::Yes, Token::No]));
    let mut failing = Lexer::new("a\n b ^");
    assert_eq!(failing.tokenize(), lex_error(2, 4));
    assert_eq!(failing.tokenize(), lex_error(2, 4));
}

#[test]
fn tokens_compare_by_kind_and_payload() {
    assert_eq!(Token::Heart, Token::Heart);
    assert_ne!(Token::Heart, Token::Forever);
    assert_eq!(Token::Number(3), Token::Number(3));
    assert_ne!(Token::Number(3), Token::Number(4));
    assert_eq!(Token::Text("a".to_string()), Token::Text("a".to_string()));
    assert_ne!(Token::Text("a".to_string()), Token::Identifier("a".to_string()));
    assert_ne!(Token::Text("a".to_string()), Token::Text("b".to_string()));
    assert_ne!(Token::Identifier("a".to_string()), Token::Number(1));
}

#[test]
fn function_declaration_is_tokenized() {
    assert_eq!(
        lex("devotion add(a: number, b: text) -> feeling { promise a; }"),
        Ok(vec![
            Token::Devotion,
            Token::Identifier("add".to_string()),
            Token::LParen,
            Token::Identifier("a".to_string()),
            Token::Colon,
            Token::TypeNumber,
            Token::Comma,
            Token::Identifier("b".to_string()),
            Token::Colon,
            Token::TypeText,
            Token::RParen,
            Token::Arrow,
            Token::TypeFeeling,
            Token::LBrace,
            Token::Promise,
            Token::Identifier("a".to_string()),
            Token::Semicolon,
            Token::RBrace,
        ])
    );
}
