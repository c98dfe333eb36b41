//! The scanner: from source text to tokens.
use crate::error::{ErrorView, LoveError};
use crate::text::{chars_of, push_decimal, same_text, string_of};
use rules::{Class, Lexeme};
use token::view_of_tokens;
use vstd::prelude::*;

pub mod laws;
pub mod rules;
pub mod token;

pub use token::{Token, TokenView};

verus! {

/// A scanner over a source text. It remembers where the last scan failed.
#[derive(Debug)]
pub struct Lexer<'a> {
    source: &'a str,
    line: usize,
    column: usize,
}

/// A lexeme as the scanner hands it on.
enum Piece {
    Skip,
    Found(Token),
    Invalid,
}

impl View for Piece {
    type V = Lexeme;

    closed spec fn view(&self) -> Lexeme {
        match self {
            Piece::Skip => Lexeme::Skip,
            Piece::Found(t) => Lexeme::Found(t@),
            Piece::Invalid => Lexeme::Invalid,
        }
    }
}

/// Whether `c` belongs to `class`.
fn in_class(class: Class, c: char) -> (r: bool)
    ensures
        r == rules::in_class(class, c),
{
    match class {
        Class::Space => c == ' ' || c == '\t' || c == '\n' || c == '\x0c',
        Class::Digit => '0' <= c && c <= '9',
        Class::Word => ('a' <= c && c <= 'z') || ('A' <= c && c <= 'Z') || c == '_' || ('0' <= c
            && c <= '9'),
        Class::Comment => c != '\n',
        Class::Quoted => c != '"',
    }
}

/// How many characters from `from` on belong to `class`.
fn span(chars: &Vec<char>, from: usize, class: Class) -> (n: usize)
    requires
        from <= chars.len(),
    ensures
        n == rules::span_len(chars@, from as int, class),
        from + n <= chars.len(),
        forall|k: int| from <= k < from + n ==> rules::in_class(class, #[trigger] chars@[k]),
{
    let mut end: usize = from;
    while end < chars.len() && in_class(class, chars[end])
        invariant
            from <= end <= chars.len(),
            rules::span_len(chars@, from as int, class) == (end - from) + rules::span_len(
                chars@,
                end as int,
                class,
            ),
            forall|k: int| from <= k < end ==> rules::in_class(class, #[trigger] chars@[k]),
        decreases chars.len() - end,
    {
        end += 1;
    }
    end - from
}

/// The token of a word: the keyword that is spelled so, or a name.
fn word_token(word: String) -> (t: Token)
    ensures
        t@ == rules::word_token(word@),
{
    let w = word.as_str();
    if same_text(w, "heart") {
        Token::Heart
    } else if same_text(w, "forever") {
        Token::Forever
    } else if same_text(w, "devotion") {
        Token::Devotion
    } else if same_text(w, "crush") {
        Token::Crush
    } else if same_text(w, "butterflies") {
        Token::Butterflies
    } else if same_text(w, "lonely") {
        Token::Lonely
    } else if same_text(w, "dating") {
        Token::Dating
    } else if same_text(w, "promise") {
        Token::Promise
    } else if same_text(w, "whisper") {
        Token::Whisper
    } else if same_text(w, "relationship") {
        Token::Relationship
    } else if same_text(w, "number") {
        Token::TypeNumber
    } else if same_text(w, "text") {
        Token::TypeText
    } else if same_text(w, "feeling") {
        Token::TypeFeeling
    } else if same_text(w, "yes") {
        Token::Yes
    } else if same_text(w, "no") {
        Token::No
    } else if same_text(w, "cuddle") {
        Token::Cuddle
    } else if same_text(w, "breakup") {
        Token::Breakup
    } else if same_text(w, "kiss") {
        Token::Kiss
    } else if same_text(w, "split") {
        Token::Split
    } else if same_text(w, "match") {
        Token::Match
    } else if same_text(w, "soulmate") {
        Token::Soulmate
    } else if same_text(w, "not") {
        Token::Not
    } else if same_text(w, "and") {
        Token::And
    } else if same_text(w, "or") {
        Token::Or
    } else if same_text(w, "admires") {
        Token::GreaterThan
    } else if same_text(w, "adores") {
        Token::GreaterThanEqual
    } else if same_text(w, "envies") {
        Token::LessThan
    } else if same_text(w, "yearns") {
        Token::LessThanEqual
    } else if same_text(w, "heartbreak") {
        Token::NotEqual
    } else {
        Token::Identifier(word)
    }
}

/// The token of the digits `chars[from..to]`, read with a minus sign before
/// them if `negative`: none where the value does not fit.
fn number_token(chars: &Vec<char>, from: usize, to: usize, negative: bool) -> (r: Option<Token>)
    requires
        from <= to <= chars.len(),
        forall|k: int| from <= k < to ==> rules::is_digit(#[trigger] chars@[k]),
    ensures
        match r {
            Some(t) => rules::number_token(chars@.subrange(from as int, to as int), negative)
                == Some(t@),
            None => rules::number_token(chars@.subrange(from as int, to as int), negative) is None,
        },
{
    let ghost digits = chars@.subrange(from as int, to as int);
    let limit: u64 = 9223372036854775808;
    let mut magnitude: u64 = 0;
    let mut k: usize = from;
    while k < to
        invariant
            from <= k <= to <= chars.len(),
            digits == chars@.subrange(from as int, to as int),
            forall|j: int| from <= j < to ==> rules::is_digit(#[trigger] chars@[j]),
            magnitude == rules::decimal_value(chars@.subrange(from as int, k as int)),
            magnitude <= limit,
            limit == 9223372036854775808,
        decreases to - k,
    {
        let c = chars[k];
        let digit: u64 = (c as u64) - ('0' as u64);
        proof {
            assert(chars@.subrange(from as int, k + 1).drop_last() =~= chars@.subrange(
                from as int,
                k as int,
            ));
            laws::decimal_value_grows(digits, k + 1 - from);
            assert(digits.take(k + 1 - from) =~= chars@.subrange(from as int, k + 1));
        }
        if magnitude > (limit - digit) / 10 {
            return None;
        }
        magnitude = magnitude * 10 + digit;
        k += 1;
    }
    if negative {
        let value: i128 = -(magnitude as i128);
        Some(Token::Number(value as i64))
    } else if magnitude < limit {
        Some(Token::Number(magnitude as i64))
    } else {
        None
    }
}

/// The token of a punctuation mark of one character, if `c` is one.
fn punctuation(c: char) -> (r: Option<Token>)
    ensures
        match r {
            Some(t) => rules::punctuation(c) == Some(t@),
            None => rules::punctuation(c) is None,
        },
{
    if c == '(' {
        Some(Token::LParen)
    } else if c == ')' {
        Some(Token::RParen)
    } else if c == '{' {
        Some(Token::LBrace)
    } else if c == '}' {
        Some(Token::RBrace)
    } else if c == ';' {
        Some(Token::Semicolon)
    } else if c == ',' {
        Some(Token::Comma)
    } else if c == ':' {
        Some(Token::Colon)
    } else {
        None
    }
}

/// The lexeme that starts at `i`, and its length.
fn next_lexeme(chars: &Vec<char>, i: usize) -> (r: (Piece, usize))
    requires
        i < chars.len(),
    ensures
        r.0@ == rules::next_lexeme(chars@, i as int).lexeme,
        r.1 == rules::next_lexeme(chars@, i as int).length,
        1 <= r.1,
        i + r.1 <= chars.len(),
{
    let c = chars[i];
    let has_next = i + 1 < chars.len();
    if in_class(Class::Space, c) {
        (Piece::Skip, 1 + span(chars, i + 1, Class::Space))
    } else if c == '/' && has_next && chars[i + 1] == '/' {
        let body = span(chars, i + 2, Class::Comment);
        if i + 2 + body < chars.len() {
            (Piece::Skip, 2 + body + 1)
        } else {
            (Piece::Skip, 2 + body)
        }
    } else if in_class(Class::Word, c) && !in_class(Class::Digit, c) {
        let length = 1 + span(chars, i + 1, Class::Word);
        let word = string_of(chars, i, i + length);
        (Piece::Found(word_token(word)), length)
    } else if in_class(Class::Digit, c) {
        let length = 1 + span(chars, i + 1, Class::Digit);
        match number_token(chars, i, i + length, false) {
            Some(t) => (Piece::Found(t), length),
            None => (Piece::Invalid, length),
        }
    } else if c == '-' && has_next && in_class(Class::Digit, chars[i + 1]) {
        let length = 2 + span(chars, i + 2, Class::Digit);
        match number_token(chars, i + 1, i + length, true) {
            Some(t) => (Piece::Found(t), length),
            None => (Piece::Invalid, length),
        }
    } else if c == '-' && has_next && chars[i + 1] == '>' {
        (Piece::Found(Token::Arrow), 2)
    } else if c == '"' {
        let body = span(chars, i + 1, Class::Quoted);
        if i + 1 + body < chars.len() {
            (Piece::Found(Token::Text(string_of(chars, i + 1, i + 1 + body))), body + 2)
        } else {
            (Piece::Invalid, 1)
        }
    } else {
        match punctuation(c) {
            Some(t) => (Piece::Found(t), 1),
            None => (Piece::Invalid, 1),
        }
    }
}

/// The line and the column of the place `at`, both counted from 1.
fn locate(chars: &Vec<char>, at: usize) -> (r: (usize, usize))
    requires
        at < chars.len(),
    ensures
        r.0 == rules::line_at(chars@, at as int),
        r.1 == rules::column_at(chars@, at as int),
{
    let mut line: usize = 1;
    let mut column: usize = 1;
    let mut k: usize = 0;
    while k < at
        invariant
            k <= at < chars.len(),
            line == rules::line_at(chars@, k as int),
            column == rules::column_at(chars@, k as int),
            line <= k + 1,
            column <= k + 1,
        decreases at - k,
    {
        if chars[k] == '\n' {
            line += 1;
            column = 1;
        } else {
            column += 1;
        }
        k += 1;
    }
    (line, column)
}

impl<'a> Lexer<'a> {
    /// The text that the scanner reads.
    pub closed spec fn source(&self) -> Seq<char> {
        self.source@
    }

    /// The line where the last scan failed; 1 before any has.
    pub closed spec fn line(&self) -> nat {
        self.line as nat
    }

    /// The column where the last scan failed; 1 before any has.
    pub closed spec fn column(&self) -> nat {
        self.column as nat
    }

    /// A scanner over `source`.
    pub fn new(source: &'a str) -> (r: Self)
        ensures
            r.source() == source@,
            r.line() == 1,
            r.column() == 1,
    {
        Lexer { source, line: 1, column: 1 }
    }

    /// Scans the whole source. Either every lexeme is valid and the tokens
    /// come back in order, or the first character that starts no token is
    /// reported with its line and column, and no token comes back.
    pub fn tokenize(&mut self) -> (r: Result<Vec<Token>, LoveError>)
        ensures
            final(self).source() == old(self).source(),
            match rules::tokens_of(old(self).source()) {
                Ok(tokens) => r is Ok && view_of_tokens(r->Ok_0@) == tokens && final(self).line()
                    == old(self).line() && final(self).column() == old(self).column(),
                Err(at) => r is Err && r->Err_0@ == ErrorView::Lexer(
                    rules::invalid_token(
                        rules::line_at(old(self).source(), at),
                        rules::column_at(old(self).source(), at),
                    ),
                ) && final(self).line() == rules::line_at(old(self).source(), at) && final(
                    self
                ).column() == rules::column_at(old(self).source(), at),
            },
    {
        let chars = chars_of(self.source);
        let mut tokens: Vec<Token> = Vec::new();
        let mut i: usize = 0;
        proof {
            assert(view_of_tokens(tokens@) =~= Seq::<TokenView>::empty());
        }
        while i < chars.len()
            invariant
                i <= chars.len(),
                chars@ == self.source(),
                self.source() == old(self).source(),
                self.line() == old(self).line(),
                self.column() == old(self).column(),
                rules::tokens_of(chars@) == rules::tokens_from(
                    chars@,
                    i as int,
                    view_of_tokens(tokens@),
                ),
            decreases chars.len() - i,
        {
            let (piece, length) = next_lexeme(&chars, i);
            match piece {
                Piece::Skip => {},
                Piece::Found(token) => {
                    let ghost seen = view_of_tokens(tokens@);
                    let ghost added = token@;
                    tokens.push(token);
                    proof {
                        assert(view_of_tokens(tokens@) =~= seen.push(added));
                    }
                },
                Piece::Invalid => {
                    let (line, column) = locate(&chars, i);
                    self.line = line;
                    self.column = column;
                    let mut message = "Invalid token at line ".to_owned();
                    push_decimal(&mut message, line as u64);
                    message.append(", column ");
                    push_decimal(&mut message, column as u64);
                    return Err(LoveError::Lexer(message));
                },
            }
            i += length;
        }
        Ok(tokens)
    }
}

} // verus!
