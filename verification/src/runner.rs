//! Running a whole source text: scanning, parsing and evaluation in a row.
use crate::error::{ErrorView, LoveError};
use crate::interpreter::semantics::{eval, Machine, Outcome};
use crate::interpreter::{result_view, view_of_values, Interpreter, CALL_DEPTH_LIMIT};
use crate::lexer::rules::{column_at, invalid_token, line_at, tokens_of};
use crate::lexer::Lexer;
use crate::parser::grammar::program;
use crate::parser::Parser;
use crate::shared_types::{Value, ValueView};
use crate::text::same_text;
use vstd::prelude::*;

verus! {

/// What running a source text against a state gives. The stages run in a
/// row, and a stage that fails keeps the later ones from running: a source
/// that cannot be scanned or parsed leaves the state as it was.
pub open spec fn run_source(source: Seq<char>, st: Machine) -> Outcome {
    match tokens_of(source) {
        Ok(tokens) => match program(tokens, 0).result {
            Ok(ast) => eval(ast, st, CALL_DEPTH_LIMIT as nat),
            Err(message) => Outcome { result: Err(ErrorView::Parser(message)), after: st },
        },
        Err(at) => Outcome {
            result: Err(
                ErrorView::Lexer(invalid_token(line_at(source, at), column_at(source, at))),
            ),
            after: st,
        },
    }
}

/// Whether a source text can be scanned and parsed, and the error if not.
pub open spec fn syntax_of(source: Seq<char>) -> Result<(), ErrorView> {
    match tokens_of(source) {
        Ok(tokens) => match program(tokens, 0).result {
            Ok(_) => Ok(()),
            Err(message) => Err(ErrorView::Parser(message)),
        },
        Err(at) => Err(ErrorView::Lexer(invalid_token(line_at(source, at), column_at(source, at)))),
    }
}

/// Scans and parses a source text and evaluates the program against the
/// interpreter's state.
pub fn execute(source: &str, interpreter: &mut Interpreter) -> (r: Result<Value, LoveError>)
    ensures
        result_view(r) == run_source(source@, old(interpreter)@).result,
        final(interpreter)@ == run_source(source@, old(interpreter)@).after,
{
    let mut lexer = Lexer::new(source);
    let tokens = match lexer.tokenize() {
        Ok(tokens) => tokens,
        Err(e) => {
            return Err(e);
        },
    };
    let mut parser = Parser::new(tokens);
    let ast = match parser.parse() {
        Ok(ast) => ast,
        Err(e) => {
            return Err(e);
        },
    };
    interpreter.interpret(ast)
}

/// Scans and parses a source text without evaluating it.
pub fn validate_syntax(input: &str) -> (r: Result<(), LoveError>)
    ensures
        match r {
            Ok(_) => syntax_of(input@) is Ok,
            Err(e) => syntax_of(input@) == Err::<(), ErrorView>(e@),
        },
{
    let mut lexer = Lexer::new(input);
    let tokens = match lexer.tokenize() {
        Ok(tokens) => tokens,
        Err(e) => {
            return Err(e);
        },
    };
    let mut parser = Parser::new(tokens);
    match parser.parse() {
        Ok(_) => Ok(()),
        Err(e) => Err(e),
    }
}

/// The error for a path that has an extension other than `love`.
pub open spec fn wrong_extension() -> ErrorView {
    ErrorView::Runtime("Only .love files can contain our love story! 💝"@)
}

/// The error for a path without an extension.
pub open spec fn missing_extension() -> ErrorView {
    ErrorView::Runtime("File must have a .love extension! 💝"@)
}

/// Runs script files against one interpreter.
pub struct Runner {
    interpreter: Interpreter,
}

impl View for Runner {
    type V = Machine;

    closed spec fn view(&self) -> Machine {
        self.interpreter@
    }
}

impl Runner {
    /// A runner with a fresh interpreter.
    pub fn new() -> (r: Self)
        ensures
            r@ == (Machine { env: Map::empty(), output: Seq::empty() }),
    {
        Runner { interpreter: Interpreter::new() }
    }

    /// Whether a script may be run, by the extension of its path: only
    /// `love` is accepted.
    pub fn check_extension(extension: Option<&str>) -> (r: Result<(), LoveError>)
        ensures
            match extension {
                Some(e) => if e@ == "love"@ {
                    r is Ok
                } else {
                    r is Err && r->Err_0@ == wrong_extension()
                },
                None => r is Err && r->Err_0@ == missing_extension(),
            },
    {
        match extension {
            Some(e) => {
                if same_text(e, "love") {
                    Ok(())
                } else {
                    Err(
                        LoveError::Runtime(
                            "Only .love files can contain our love story! 💝".to_owned(),
                        ),
                    )
                }
            },
            None => Err(LoveError::Runtime("File must have a .love extension! 💝".to_owned())),
        }
    }

    /// Runs the content of a script file: the program is scanned, parsed and
    /// evaluated, and its value is dropped.
    pub fn run_file(&mut self, content: &str) -> (r: Result<(), LoveError>)
        ensures
            match r {
                Ok(_) => run_source(content@, old(self)@).result is Ok,
                Err(e) => run_source(content@, old(self)@).result == Err::<ValueView, ErrorView>(
                    e@,
                ),
            },
            final(self)@ == run_source(content@, old(self)@).after,
    {
        match execute(content, &mut self.interpreter) {
            Ok(_) => Ok(()),
            Err(e) => Err(e),
        }
    }

    /// Hands out what the scripts printed since the last call, oldest first,
    /// and forgets it.
    pub fn take_output(&mut self) -> (r: Vec<Value>)
        ensures
            view_of_values(r@) == old(self)@.output,
            final(self)@ == (Machine { env: old(self)@.env, output: Seq::empty() }),
    {
        self.interpreter.take_output()
    }
}

} // verus!
