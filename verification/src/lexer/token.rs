//! The tokens of the language.
use crate::text::{decimal_signed, push_decimal_signed};
use vstd::prelude::*;
use vstd::std_specs::cmp::PartialEqSpecImpl;

verus! {

/// The smallest unit that the scanner recognises.
#[derive(Debug)]
pub enum Token {
    /// A character that starts no token.
    Error,
    /// `heart`: declares a variable.
    Heart,
    /// `forever`: declares a constant.
    Forever,
    /// `devotion`: declares a function.
    Devotion,
    /// `crush`: if.
    Crush,
    /// `butterflies`: else.
    Butterflies,
    Lonely,
    /// `dating`: while.
    Dating,
    /// `promise`: return.
    Promise,
    /// `whisper`: print.
    Whisper,
    Relationship,
    TypeNumber,
    TypeText,
    TypeFeeling,
    /// An integer literal.
    Number(i64),
    /// A quoted text, without its quotes.
    Text(String),
    Yes,
    No,
    /// `cuddle`: plus.
    Cuddle,
    /// `breakup`: minus.
    Breakup,
    /// `kiss`: times.
    Kiss,
    /// `split`: divided by.
    Split,
    /// `match`: assignment.
    Match,
    /// `soulmate`: equal.
    Soulmate,
    Not,
    And,
    Or,
    /// `admires`: greater than.
    GreaterThan,
    /// `adores`: greater than or equal.
    GreaterThanEqual,
    /// `envies`: less than.
    LessThan,
    /// `yearns`: less than or equal.
    LessThanEqual,
    /// `heartbreak`: not equal.
    NotEqual,
    LParen,
    RParen,
    LBrace,
    RBrace,
    Semicolon,
    Comma,
    Colon,
    Arrow,
    /// A name.
    Identifier(String),
}

/// The model of a [`Token`].
pub enum TokenView {
    Error,
    Heart,
    Forever,
    Devotion,
    Crush,
    Butterflies,
    Lonely,
    Dating,
    Promise,
    Whisper,
    Relationship,
    TypeNumber,
    TypeText,
    TypeFeeling,
    Number(i64),
    Text(Seq<char>),
    Yes,
    No,
    Cuddle,
    Breakup,
    Kiss,
    Split,
    Match,
    Soulmate,
    Not,
    And,
    Or,
    GreaterThan,
    GreaterThanEqual,
    LessThan,
    LessThanEqual,
    NotEqual,
    LParen,
    RParen,
    LBrace,
    RBrace,
    Semicolon,
    Comma,
    Colon,
    Arrow,
    Identifier(Seq<char>),
}

impl View for Token {
    type V = TokenView;

    open spec fn view(&self) -> TokenView {
        match self {
            Token::Error => TokenView::Error,
            Token::Heart => TokenView::Heart,
            Token::Forever => TokenView::Forever,
            Token::Devotion => TokenView::Devotion,
            Token::Crush => TokenView::Crush,
            Token::Butterflies => TokenView::Butterflies,
            Token::Lonely => TokenView::Lonely,
            Token::Dating => TokenView::Dating,
            Token::Promise => TokenView::Promise,
            Token::Whisper => TokenView::Whisper,
            Token::Relationship => TokenView::Relationship,
            Token::TypeNumber => TokenView::TypeNumber,
            Token::TypeText => TokenView::TypeText,
            Token::TypeFeeling => TokenView::TypeFeeling,
            Token::Number(n) => TokenView::Number(*n),
            Token::Text(s) => TokenView::Text(s@),
            Token::Yes => TokenView::Yes,
            Token::No => TokenView::No,
            Token::Cuddle => TokenView::Cuddle,
            Token::Breakup => TokenView::Breakup,
            Token::Kiss => TokenView::Kiss,
            Token::Split => TokenView::Split,
            Token::Match => TokenView::Match,
            Token::Soulmate => TokenView::Soulmate,
            Token::Not => TokenView::Not,
            Token::And => TokenView::And,
            Token::Or => TokenView::Or,
            Token::GreaterThan => TokenView::GreaterThan,
            Token::GreaterThanEqual => TokenView::GreaterThanEqual,
            Token::LessThan => TokenView::LessThan,
            Token::LessThanEqual => TokenView::LessThanEqual,
            Token::NotEqual => TokenView::NotEqual,
            Token::LParen => TokenView::LParen,
            Token::RParen => TokenView::RParen,
            Token::LBrace => TokenView::LBrace,
            Token::RBrace => TokenView::RBrace,
            Token::Semicolon => TokenView::Semicolon,
            Token::Comma => TokenView::Comma,
            Token::Colon => TokenView::Colon,
            Token::Arrow => TokenView::Arrow,
            Token::Identifier(s) => TokenView::Identifier(s@),
        }
    }
}

/// The views of a list of tokens.
pub open spec fn view_of_tokens(tokens: Seq<Token>) -> Seq<TokenView> {
    Seq::new(tokens.len(), |i: int| tokens[i]@)
}

impl TokenView {
    /// Whether the token carries a number, a text or a name.
    pub open spec fn has_payload(self) -> bool {
        self is Number || self is Text || self is Identifier
    }

    /// The token as source text: a keyword, an operator or a punctuation
    /// mark as it is written, a number in decimal, a text between quotes, a
    /// name as it is.
    pub open spec fn display(self) -> Seq<char> {
        match self {
            TokenView::Error => "ERROR"@,
            TokenView::Heart => "heart"@,
            TokenView::Forever => "forever"@,
            TokenView::Devotion => "devotion"@,
            TokenView::Crush => "crush"@,
            TokenView::Butterflies => "butterflies"@,
            TokenView::Lonely => "lonely"@,
            TokenView::Dating => "dating"@,
            TokenView::Promise => "promise"@,
            TokenView::Whisper => "whisper"@,
            TokenView::Relationship => "relationship"@,
            TokenView::TypeNumber => "number"@,
            TokenView::TypeText => "text"@,
            TokenView::TypeFeeling => "feeling"@,
            TokenView::Number(n) => decimal_signed(n as int),
            TokenView::Text(s) => seq!['"'] + s + seq!['"'],
            TokenView::Yes => "yes"@,
            TokenView::No => "no"@,
            TokenView::Cuddle => "cuddle"@,
            TokenView::Breakup => "breakup"@,
            TokenView::Kiss => "kiss"@,
            TokenView::Split => "split"@,
            TokenView::Match => "match"@,
            TokenView::Soulmate => "soulmate"@,
            TokenView::Not => "not"@,
            TokenView::And => "and"@,
            TokenView::Or => "or"@,
            TokenView::GreaterThan => "admires"@,
            TokenView::GreaterThanEqual => "adores"@,
            TokenView::LessThan => "envies"@,
            TokenView::LessThanEqual => "yearns"@,
            TokenView::NotEqual => "heartbreak"@,
            TokenView::LParen => "("@,
            TokenView::RParen => ")"@,
            TokenView::LBrace => "{"@,
            TokenView::RBrace => "}"@,
            TokenView::Semicolon => ";"@,
            TokenView::Comma => ","@,
            TokenView::Colon => ":"@,
            TokenView::Arrow => "->"@,
            TokenView::Identifier(name) => name,
        }
    }

    /// A number that tells the variants apart.
    pub open spec fn tag(self) -> nat {
        match self {
            TokenView::Error => 0,
            TokenView::Heart => 1,
            TokenView::Forever => 2,
            TokenView::Devotion => 3,
            TokenView::Crush => 4,
            TokenView::Butterflies => 5,
            TokenView::Lonely => 6,
            TokenView::Dating => 7,
            TokenView::Promise => 8,
            TokenView::Whisper => 9,
            TokenView::Relationship => 10,
            TokenView::TypeNumber => 11,
            TokenView::TypeText => 12,
            TokenView::TypeFeeling => 13,
            TokenView::Number(_) => 14,
            TokenView::Text(_) => 15,
            TokenView::Yes => 16,
            TokenView::No => 17,
            TokenView::Cuddle => 18,
            TokenView::Breakup => 19,
            TokenView::Kiss => 20,
            TokenView::Split => 21,
            TokenView::Match => 22,
            TokenView::Soulmate => 23,
            TokenView::Not => 24,
            TokenView::And => 25,
            TokenView::Or => 26,
            TokenView::GreaterThan => 27,
            TokenView::GreaterThanEqual => 28,
            TokenView::LessThan => 29,
            TokenView::LessThanEqual => 30,
            TokenView::NotEqual => 31,
            TokenView::LParen => 32,
            TokenView::RParen => 33,
            TokenView::LBrace => 34,
            TokenView::RBrace => 35,
            TokenView::Semicolon => 36,
            TokenView::Comma => 37,
            TokenView::Colon => 38,
            TokenView::Arrow => 39,
            TokenView::Identifier(_) => 40,
        }
    }
}

impl Token {
    /// The token as source text.
    pub fn to_string(&self) -> (s: String)
        ensures
            s@ == self@.display(),
    {
        match self {
            Token::Error => "ERROR".to_owned(),
            Token::Heart => "heart".to_owned(),
            Token::Forever => "forever".to_owned(),
            Token::Devotion => "devotion".to_owned(),
            Token::Crush => "crush".to_owned(),
            Token::Butterflies => "butterflies".to_owned(),
            Token::Lonely => "lonely".to_owned(),
            Token::Dating => "dating".to_owned(),
            Token::Promise => "promise".to_owned(),
            Token::Whisper => "whisper".to_owned(),
            Token::Relationship => "relationship".to_owned(),
            Token::TypeNumber => "number".to_owned(),
            Token::TypeText => "text".to_owned(),
            Token::TypeFeeling => "feeling".to_owned(),
            Token::Number(n) => {
                let mut out = String::new();
                push_decimal_signed(&mut out, *n);
                out
            },
            Token::Text(s) => {
                let mut out = "\"".to_owned();
                out.append(s.as_str());
                out.append("\"");
                proof {
                    reveal_strlit("\"");
                }
                out
            },
            Token::Yes => "yes".to_owned(),
            Token::No => "no".to_owned(),
            Token::Cuddle => "cuddle".to_owned(),
            Token::Breakup => "breakup".to_owned(),
            Token::Kiss => "kiss".to_owned(),
            Token::Split => "split".to_owned(),
            Token::Match => "match".to_owned(),
            Token::Soulmate => "soulmate".to_owned(),
            Token::Not => "not".to_owned(),
            Token::And => "and".to_owned(),
            Token::Or => "or".to_owned(),
            Token::GreaterThan => "admires".to_owned(),
            Token::GreaterThanEqual => "adores".to_owned(),
            Token::LessThan => "envies".to_owned(),
            Token::LessThanEqual => "yearns".to_owned(),
            Token::NotEqual => "heartbreak".to_owned(),
            Token::LParen => "(".to_owned(),
            Token::RParen => ")".to_owned(),
            Token::LBrace => "{".to_owned(),
            Token::RBrace => "}".to_owned(),
            Token::Semicolon => ";".to_owned(),
            Token::Comma => ",".to_owned(),
            Token::Colon => ":".to_owned(),
            Token::Arrow => "->".to_owned(),
            Token::Identifier(name) => name.clone(),
        }
    }

    /// A number that tells the variants apart.
    fn tag(&self) -> (r: u8)
        ensures
            r == self@.tag(),
    {
        match self {
            Token::Error => 0,
            Token::Heart => 1,
            Token::Forever => 2,
            Token::Devotion => 3,
            Token::Crush => 4,
            Token::Butterflies => 5,
            Token::Lonely => 6,
            Token::Dating => 7,
            Token::Promise => 8,
            Token::Whisper => 9,
            Token::Relationship => 10,
            Token::TypeNumber => 11,
            Token::TypeText => 12,
            Token::TypeFeeling => 13,
            Token::Number(_) => 14,
            Token::Text(_) => 15,
            Token::Yes => 16,
            Token::No => 17,
            Token::Cuddle => 18,
            Token::Breakup => 19,
            Token::Kiss => 20,
            Token::Split => 21,
            Token::Match => 22,
            Token::Soulmate => 23,
            Token::Not => 24,
            Token::And => 25,
            Token::Or => 26,
            Token::GreaterThan => 27,
            Token::GreaterThanEqual => 28,
            Token::LessThan => 29,
            Token::LessThanEqual => 30,
            Token::NotEqual => 31,
            Token::LParen => 32,
            Token::RParen => 33,
            Token::LBrace => 34,
            Token::RBrace => 35,
            Token::Semicolon => 36,
            Token::Comma => 37,
            Token::Colon => 38,
            Token::Arrow => 39,
            Token::Identifier(_) => 40,
        }
    }
}

impl Clone for Token {
    fn clone(&self) -> (r: Self)
        ensures
            r@ == self@,
    {
        match self {
            Token::Error => Token::Error,
            Token::Heart => Token::Heart,
            Token::Forever => Token::Forever,
            Token::Devotion => Token::Devotion,
            Token::Crush => Token::Crush,
            Token::Butterflies => Token::Butterflies,
            Token::Lonely => Token::Lonely,
            Token::Dating => Token::Dating,
            Token::Promise => Token::Promise,
            Token::Whisper => Token::Whisper,
            Token::Relationship => Token::Relationship,
            Token::TypeNumber => Token::TypeNumber,
            Token::TypeText => Token::TypeText,
            Token::TypeFeeling => Token::TypeFeeling,
            Token::Number(n) => Token::Number(*n),
            Token::Text(s) => Token::Text(s.clone()),
            Token::Yes => Token::Yes,
            Token::No => Token::No,
            Token::Cuddle => Token::Cuddle,
            Token::Breakup => Token::Breakup,
            Token::Kiss => Token::Kiss,
            Token::Split => Token::Split,
            Token::Match => Token::Match,
            Token::Soulmate => Token::Soulmate,
            Token::Not => Token::Not,
            Token::And => Token::And,
            Token::Or => Token::Or,
            Token::GreaterThan => Token::GreaterThan,
            Token::GreaterThanEqual => Token::GreaterThanEqual,
            Token::LessThan => Token::LessThan,
            Token::LessThanEqual => Token::LessThanEqual,
            Token::NotEqual => Token::NotEqual,
            Token::LParen => Token::LParen,
            Token::RParen => Token::RParen,
            Token::LBrace => Token::LBrace,
            Token::RBrace => Token::RBrace,
            Token::Semicolon => Token::Semicolon,
            Token::Comma => Token::Comma,
            Token::Colon => Token::Colon,
            Token::Arrow => Token::Arrow,
            Token::Identifier(s) => Token::Identifier(s.clone()),
        }
    }
}

impl PartialEq for Token {
    fn eq(&self, other: &Token) -> (r: bool) {
        match (self, other) {
            (Token::Number(a), Token::Number(b)) => *a == *b,
            (Token::Text(a), Token::Text(b)) => *a == *b,
            (Token::Identifier(a), Token::Identifier(b)) => *a == *b,
            _ => self.tag() == other.tag(),
        }
    }
}

impl PartialEqSpecImpl for Token {
    open spec fn obeys_eq_spec() -> bool {
        true
    }

    open spec fn eq_spec(&self, other: &Token) -> bool {
        self@ == other@
    }
}

} // verus!
