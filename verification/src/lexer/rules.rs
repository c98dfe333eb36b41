//! The token grammar, as functions on the characters of the source.
//!
//! At each place the scanner takes the longest lexeme that starts there: a run
//! of white space or a comment, which give no token; a word, which is a
//! keyword where it is spelled like one and a name otherwise; an integer with
//! an optional sign; a quoted text; `->`; or one punctuation mark. A character
//! that starts none of these is invalid and ends the scan.
use crate::lexer::token::TokenView;
use crate::text::decimal;
use vstd::prelude::*;

verus! {

/// The classes of characters that a lexeme can run over.
#[derive(Debug, Clone, Copy, PartialEq, Eq, Structural)]
pub enum Class {
    /// Space, tab, line feed and form feed.
    Space,
    /// The ten decimal digits.
    Digit,
    /// Letters, digits and the underscore.
    Word,
    /// Everything but a line feed: the body of a comment.
    Comment,
    /// Everything but a double quote: the body of a text.
    Quoted,
}

pub open spec fn is_space(c: char) -> bool {
    c == ' ' || c == '\t' || c == '\n' || c == '\x0c'
}

pub open spec fn is_digit(c: char) -> bool {
    '0' <= c && c <= '9'
}

pub open spec fn is_word_start(c: char) -> bool {
    ('a' <= c && c <= 'z') || ('A' <= c && c <= 'Z') || c == '_'
}

pub open spec fn is_word_char(c: char) -> bool {
    is_word_start(c) || is_digit(c)
}

/// Whether `c` belongs to `class`.
pub open spec fn in_class(class: Class, c: char) -> bool {
    match class {
        Class::Space => is_space(c),
        Class::Digit => is_digit(c),
        Class::Word => is_word_char(c),
        Class::Comment => c != '\n',
        Class::Quoted => c != '"',
    }
}

/// How many characters from `from` on belong to `class`, up to the first that
/// does not.
pub open spec fn span_len(s: Seq<char>, from: int, class: Class) -> nat
    decreases s.len() - from,
{
    if 0 <= from < s.len() && in_class(class, s[from]) {
        1 + span_len(s, from + 1, class)
    } else {
        0
    }
}

/// The number that a sequence of digits writes in decimal.
pub open spec fn decimal_value(digits: Seq<char>) -> nat
    decreases digits.len(),
{
    if digits.len() == 0 {
        0
    } else {
        (decimal_value(digits.drop_last()) * 10 + (digits.last() as int - '0' as int)) as nat
    }
}

/// The token of a word: the keyword, type name or operator that is spelled
/// so, and a name otherwise.
pub open spec fn word_token(word: Seq<char>) -> TokenView {
    if word == "heart"@ {
        TokenView::Heart
    } else if word == "forever"@ {
        TokenView::Forever
    } else if word == "devotion"@ {
        TokenView::Devotion
    } else if word == "crush"@ {
        TokenView::Crush
    } else if word == "butterflies"@ {
        TokenView::Butterflies
    } else if word == "lonely"@ {
        TokenView::Lonely
    } else if word == "dating"@ {
        TokenView::Dating
    } else if word == "promise"@ {
        TokenView::Promise
    } else if word == "whisper"@ {
        TokenView::Whisper
    } else if word == "relationship"@ {
        TokenView::Relationship
    } else if word == "number"@ {
        TokenView::TypeNumber
    } else if word == "text"@ {
        TokenView::TypeText
    } else if word == "feeling"@ {
        TokenView::TypeFeeling
    } else if word == "yes"@ {
        TokenView::Yes
    } else if word == "no"@ {
        TokenView::No
    } else if word == "cuddle"@ {
        TokenView::Cuddle
    } else if word == "breakup"@ {
        TokenView::Breakup
    } else if word == "kiss"@ {
        TokenView::Kiss
    } else if word == "split"@ {
        TokenView::Split
    } else if word == "match"@ {
        TokenView::Match
    } else if word == "soulmate"@ {
        TokenView::Soulmate
    } else if word == "not"@ {
        TokenView::Not
    } else if word == "and"@ {
        TokenView::And
    } else if word == "or"@ {
        TokenView::Or
    } else if word == "admires"@ {
        TokenView::GreaterThan
    } else if word == "adores"@ {
        TokenView::GreaterThanEqual
    } else if word == "envies"@ {
        TokenView::LessThan
    } else if word == "yearns"@ {
        TokenView::LessThanEqual
    } else if word == "heartbreak"@ {
        TokenView::NotEqual
    } else {
        TokenView::Identifier(word)
    }
}

/// The token of an integer literal: its value where that fits in 64 bits
/// with a sign, and none where it does not.
pub open spec fn number_token(digits: Seq<char>, negative: bool) -> Option<TokenView> {
    let value: int = if negative {
        -(decimal_value(digits) as int)
    } else {
        decimal_value(digits) as int
    };
    if i64::MIN <= value <= i64::MAX {
        Some(TokenView::Number(value as i64))
    } else {
        None
    }
}

/// The token of a punctuation mark of one character, if `c` is one.
pub open spec fn punctuation(c: char) -> Option<TokenView> {
    if c == '(' {
        Some(TokenView::LParen)
    } else if c == ')' {
        Some(TokenView::RParen)
    } else if c == '{' {
        Some(TokenView::LBrace)
    } else if c == '}' {
        Some(TokenView::RBrace)
    } else if c == ';' {
        Some(TokenView::Semicolon)
    } else if c == ',' {
        Some(TokenView::Comma)
    } else if c == ':' {
        Some(TokenView::Colon)
    } else {
        None
    }
}

/// What a lexeme is.
pub enum Lexeme {
    /// White space or a comment: nothing for the parser.
    Skip,
    /// A token.
    Found(TokenView),
    /// No token starts here.
    Invalid,
}

/// The lexeme at a place, and its length in characters, which is at least
/// one.
pub struct Scan {
    pub lexeme: Lexeme,
    pub length: nat,
}

/// The character at `i`, if there is one.
pub open spec fn char_at(s: Seq<char>, i: int) -> Option<char> {
    if 0 <= i < s.len() {
        Some(s[i])
    } else {
        None
    }
}

/// The lexeme that starts at `i`: the longest that the token grammar allows
/// there.
pub open spec fn next_lexeme(s: Seq<char>, i: int) -> Scan
    recommends
        0 <= i < s.len(),
{
    let c = s[i];
    if is_space(c) {
        Scan { lexeme: Lexeme::Skip, length: 1 + span_len(s, i + 1, Class::Space) }
    } else if c == '/' && char_at(s, i + 1) == Some('/') {
        let body = span_len(s, i + 2, Class::Comment);
        Scan {
            lexeme: Lexeme::Skip,
            length: if i + 2 + body < s.len() {
                2 + body + 1
            } else {
                2 + body
            },
        }
    } else if is_word_start(c) {
        let length = 1 + span_len(s, i + 1, Class::Word);
        Scan { lexeme: Lexeme::Found(word_token(s.subrange(i, i + length))), length }
    } else if is_digit(c) {
        let length = 1 + span_len(s, i + 1, Class::Digit);
        Scan {
            lexeme: match number_token(s.subrange(i, i + length), false) {
                Some(t) => Lexeme::Found(t),
                None => Lexeme::Invalid,
            },
            length,
        }
    } else if c == '-' && char_at(s, i + 1) is Some && is_digit(s[i + 1]) {
        let length = 2 + span_len(s, i + 2, Class::Digit);
        Scan {
            lexeme: match number_token(s.subrange(i + 1, i + length), true) {
                Some(t) => Lexeme::Found(t),
                None => Lexeme::Invalid,
            },
            length,
        }
    } else if c == '-' && char_at(s, i + 1) == Some('>') {
        Scan { lexeme: Lexeme::Found(TokenView::Arrow), length: 2 }
    } else if c == '"' {
        let body = span_len(s, i + 1, Class::Quoted);
        if i + 1 + body < s.len() {
            Scan {
                lexeme: Lexeme::Found(TokenView::Text(s.subrange(i + 1, i + 1 + body))),
                length: body + 2,
            }
        } else {
            Scan { lexeme: Lexeme::Invalid, length: 1 }
        }
    } else {
        match punctuation(c) {
            Some(t) => Scan { lexeme: Lexeme::Found(t), length: 1 },
            None => Scan { lexeme: Lexeme::Invalid, length: 1 },
        }
    }
}

/// How many characters are left from `i` on.
pub open spec fn chars_left(s: Seq<char>, i: int) -> nat {
    if i < s.len() {
        (s.len() - i) as nat
    } else {
        0
    }
}

/// The tokens of the source from `i` on, after those in `seen`: all of them,
/// or the place of the first character that starts no token.
pub open spec fn tokens_from(s: Seq<char>, i: int, seen: Seq<TokenView>) -> Result<
    Seq<TokenView>,
    int,
>
    decreases chars_left(s, i),
{
    if 0 <= i < s.len() {
        let scan = next_lexeme(s, i);
        match scan.lexeme {
            Lexeme::Skip => tokens_from(s, i + scan.length, seen),
            Lexeme::Found(t) => tokens_from(s, i + scan.length, seen.push(t)),
            Lexeme::Invalid => Err(i),
        }
    } else {
        Ok(seen)
    }
}

/// The tokens of a source text, or the place of the first character that
/// starts no token.
pub open spec fn tokens_of(s: Seq<char>) -> Result<Seq<TokenView>, int> {
    tokens_from(s, 0, Seq::empty())
}

/// The line of the place `i`, counted from 1: one more than the line feeds
/// before it.
pub open spec fn line_at(s: Seq<char>, i: int) -> nat
    decreases i,
{
    if i <= 0 {
        1
    } else if s[i - 1] == '\n' {
        line_at(s, i - 1) + 1
    } else {
        line_at(s, i - 1)
    }
}

/// The column of the place `i`, counted from 1: one more than the characters
/// between it and the start of its line.
pub open spec fn column_at(s: Seq<char>, i: int) -> nat
    decreases i,
{
    if i <= 0 || s[i - 1] == '\n' {
        1
    } else {
        column_at(s, i - 1) + 1
    }
}

/// The message for a character that starts no token.
pub open spec fn invalid_token(line: nat, column: nat) -> Seq<char> {
    "Invalid token at line "@ + decimal(line) + ", column "@ + decimal(column)
}

} // verus!
