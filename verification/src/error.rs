//! The error type shared by the three stages.
use vstd::prelude::*;

verus! {

/// What went wrong, by stage, with a message for the user.
#[derive(Debug, PartialEq, Eq)]
pub enum LoveError {
    /// The scanner met a character that starts no token.
    Lexer(String),
    /// The parser met a token that the grammar does not allow there.
    Parser(String),
    /// Evaluation failed: an unknown name, a wrong number of arguments,
    /// division by zero, an operation without a rule.
    Runtime(String),
    /// An operand has another type than the operator needs.
    Type(String),
}

/// The model of a [`LoveError`]: its kind and its message as characters.
pub enum ErrorView {
    Lexer(Seq<char>),
    Parser(Seq<char>),
    Runtime(Seq<char>),
    Type(Seq<char>),
}

impl View for LoveError {
    type V = ErrorView;

    open spec fn view(&self) -> ErrorView {
        match self {
            LoveError::Lexer(m) => ErrorView::Lexer(m@),
            LoveError::Parser(m) => ErrorView::Parser(m@),
            LoveError::Runtime(m) => ErrorView::Runtime(m@),
            LoveError::Type(m) => ErrorView::Type(m@),
        }
    }
}

impl ErrorView {
    /// The message, whatever the kind.
    pub open spec fn message(self) -> Seq<char> {
        match self {
            ErrorView::Lexer(m) => m,
            ErrorView::Parser(m) => m,
            ErrorView::Runtime(m) => m,
            ErrorView::Type(m) => m,
        }
    }
}

} // verus!
