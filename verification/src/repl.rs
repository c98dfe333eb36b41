//! The decisions of the interactive session. The session reads a line, asks
//! [`Session::feed`] what to do with it, does that, and reads on.
use crate::error::LoveError;
use crate::fun::{handle_special_commands, special_command, SpecialCommand};
use crate::interpreter::semantics::{Machine, Outcome};
use crate::interpreter::{result_view, Interpreter};
use crate::runner::{execute, run_source};
use crate::shared_types::{Value, ValueView};
use crate::text::{
    chars_of, check_contains, check_same_ignoring_ascii_case, contains_text, push_char,
    same_ignoring_ascii_case, trim_bounds, trimmed,
};
use vstd::prelude::*;

verus! {

/// How often `c` stands in `s`.
pub open spec fn occurrences(s: Seq<char>, c: char) -> nat
    decreases s.len(),
{
    if s.len() == 0 {
        0
    } else if s.last() == c {
        occurrences(s.drop_last(), c) + 1
    } else {
        occurrences(s.drop_last(), c)
    }
}

/// The number nearest to `n` that 32 bits hold with a sign.
pub open spec fn clamped(n: int) -> i32 {
    if n > i32::MAX {
        i32::MAX
    } else if n < i32::MIN {
        i32::MIN
    } else {
        n as i32
    }
}

/// How many more braces a text opens than it closes.
pub open spec fn brace_balance(s: Seq<char>) -> int {
    occurrences(s, '{') - occurrences(s, '}')
}

/// How many more braces `chars[from..to]` opens than it closes.
fn balance_of(chars: &Vec<char>, from: usize, to: usize) -> (r: i32)
    requires
        from <= to <= chars.len(),
    ensures
        r == clamped(brace_balance(chars@.subrange(from as int, to as int))),
{
    let mut opened: usize = 0;
    let mut closed: usize = 0;
    let mut k: usize = from;
    while k < to
        invariant
            from <= k <= to <= chars.len(),
            opened == occurrences(chars@.subrange(from as int, k as int), '{'),
            closed == occurrences(chars@.subrange(from as int, k as int), '}'),
            opened <= k - from,
            closed <= k - from,
        decreases to - k,
    {
        proof {
            assert(chars@.subrange(from as int, k + 1).drop_last() =~= chars@.subrange(
                from as int,
                k as int,
            ));
        }
        if chars[k] == '{' {
            opened += 1;
        } else if chars[k] == '}' {
            closed += 1;
        }
        k += 1;
    }
    let balance: i128 = (opened as i128) - (closed as i128);
    if balance > 2147483647 {
        2147483647
    } else if balance < -2147483648 {
        -2147483648
    } else {
        balance as i32
    }
}

/// How many more braces a line opens than it closes; on a line with more
/// braces than 32 bits count, the nearest number that they hold.
pub fn count_braces(line: &str) -> (r: i32)
    ensures
        r == clamped(brace_balance(line@)),
{
    let chars = chars_of(line);
    proof {
        assert(chars@.subrange(0, chars.len() as int) =~= chars@);
    }
    balance_of(&chars, 0, chars.len())
}

/// What running a line gives: nothing for a line of white space, and what
/// running it as a source text gives otherwise.
pub open spec fn run_line(line: Seq<char>, st: Machine) -> Outcome {
    if trimmed(line).len() == 0 {
        Outcome { result: Ok(ValueView::Null), after: st }
    } else {
        run_source(line, st)
    }
}

/// Runs a line against the interpreter. A line of white space does nothing
/// and gives the null value.
pub fn execute_line(line: &str, interpreter: &mut Interpreter) -> (r: Result<Value, LoveError>)
    ensures
        result_view(r) == run_line(line@, old(interpreter)@).result,
        final(interpreter)@ == run_line(line@, old(interpreter)@).after,
{
    let chars = chars_of(line);
    let (start, end) = trim_bounds(&chars);
    if start == end {
        return Ok(Value::Null);
    }
    execute(line, interpreter)
}

/// What the session does after a line.
#[derive(Debug, PartialEq, Eq)]
pub enum Turn {
    /// The line was a command for the session itself.
    Special(SpecialCommand),
    /// The line said goodbye.
    Quit,
    /// The line is complete but for its semicolon; it is dropped.
    MissingSemicolon,
    /// The lines gathered so far are a complete input, to be run.
    Run(String),
    /// More braces were closed than opened; the lines are dropped.
    UnmatchedBrace,
    /// The input is not complete yet.
    Wait,
}

/// The model of a [`Turn`].
pub enum TurnView {
    Special(SpecialCommand),
    Quit,
    MissingSemicolon,
    Run(Seq<char>),
    UnmatchedBrace,
    Wait,
}

impl View for Turn {
    type V = TurnView;

    open spec fn view(&self) -> TurnView {
        match self {
            Turn::Special(c) => TurnView::Special(*c),
            Turn::Quit => TurnView::Quit,
            Turn::MissingSemicolon => TurnView::MissingSemicolon,
            Turn::Run(source) => TurnView::Run(source@),
            Turn::UnmatchedBrace => TurnView::UnmatchedBrace,
            Turn::Wait => TurnView::Wait,
        }
    }
}

/// What the session remembers between lines.
pub struct SessionView {
    /// The lines of the input that is not complete yet.
    pub pending: Seq<char>,
    /// How many braces are open in them.
    pub open_braces: i32,
}

/// Whether a text ends with the character `c`.
pub open spec fn ends_with(s: Seq<char>, c: char) -> bool {
    s.len() > 0 && s.last() == c
}

/// The next state of the session and what it does, from its state and the
/// line that was read.
///
/// White space around the line aside: a command for the session and the
/// goodbye are answered at once and change nothing. Any other line is added
/// to the pending input with a line feed, and its braces are counted. With no
/// brace open, a line that ends in none of `;`, `{` and `}` is short of its
/// semicolon, unless the input declares a function; a line that ends in `;`
/// or `}` completes the input, which is run. With more braces closed than
/// opened, the input is dropped.
pub open spec fn feed(state: SessionView, line: Seq<char>) -> (SessionView, TurnView) {
    let text = trimmed(line);
    if special_command(line) is Some {
        (state, TurnView::Special(special_command(line)->Some_0))
    } else if same_ignoring_ascii_case(text, "breakup;"@) {
        (state, TurnView::Quit)
    } else {
        let open_braces = clamped(state.open_braces + clamped(brace_balance(text)));
        let pending = state.pending + line + "\n"@;
        let fresh = SessionView { pending: Seq::empty(), open_braces: 0 };
        if open_braces == 0 && text.len() > 0 && !ends_with(text, ';') && !ends_with(text, '{')
            && !ends_with(text, '}') && !contains_text(pending, "devotion"@) {
            (fresh, TurnView::MissingSemicolon)
        } else if open_braces == 0 && (ends_with(text, ';') || ends_with(text, '}')) {
            (fresh, TurnView::Run(pending))
        } else if open_braces < 0 {
            (fresh, TurnView::UnmatchedBrace)
        } else {
            (SessionView { pending, open_braces }, TurnView::Wait)
        }
    }
}

/// The state of an interactive session between two lines.
pub struct Session {
    current_line: String,
    brace_count: i32,
}

impl View for Session {
    type V = SessionView;

    closed spec fn view(&self) -> SessionView {
        SessionView { pending: self.current_line@, open_braces: self.brace_count }
    }
}

impl Session {
    /// A session with nothing pending.
    pub fn new() -> (r: Self)
        ensures
            r@ == (SessionView { pending: Seq::empty(), open_braces: 0 }),
    {
        Session { current_line: String::new(), brace_count: 0 }
    }

    /// Whether a block is open, so that the next line continues the input.
    pub fn in_block(&self) -> (r: bool)
        ensures
            r == (self@.open_braces > 0),
    {
        self.brace_count > 0
    }

    /// Takes the line that was read and says what to do.
    pub fn feed(&mut self, line: &str) -> (r: Turn)
        ensures
            final(self)@ == feed(old(self)@, line@).0,
            r@ == feed(old(self)@, line@).1,
    {
        match handle_special_commands(line) {
            Some(command) => {
                return Turn::Special(command);
            },
            None => {},
        }
        let chars = chars_of(line);
        let (start, end) = trim_bounds(&chars);
        let goodbye = chars_of("breakup;");
        if check_same_ignoring_ascii_case(&chars, start, end, &goodbye) {
            return Turn::Quit;
        }
        let sum: i64 = (self.brace_count as i64) + (balance_of(&chars, start, end) as i64);
        let open_braces: i32 = if sum > 2147483647 {
            2147483647
        } else if sum < -2147483648 {
            -2147483648
        } else {
            sum as i32
        };
        self.current_line.append(line);
        push_char(&mut self.current_line, '\n');
        proof {
            reveal_strlit("\n");
            assert(self.current_line@ =~= old(self)@.pending + line@ + "\n"@);
        }
        let last: Option<char> = if start < end {
            Some(chars[end - 1])
        } else {
            None
        };
        let ends_statement = matches!(last, Some(';'));
        let ends_open = matches!(last, Some('{'));
        let ends_close = matches!(last, Some('}'));
        if open_braces == 0 && start < end && !ends_statement && !ends_open && !ends_close {
            let pending = chars_of(self.current_line.as_str());
            let keyword = chars_of("devotion");
            if !check_contains(&pending, &keyword) {
                self.current_line = String::new();
                self.brace_count = 0;
                return Turn::MissingSemicolon;
            }
        }
        if open_braces == 0 && (ends_statement || ends_close) {
            let mut source = String::new();
            core::mem::swap(&mut self.current_line, &mut source);
            self.brace_count = 0;
            Turn::Run(source)
        } else if open_braces < 0 {
            self.current_line = String::new();
            self.brace_count = 0;
            Turn::UnmatchedBrace
        } else {
            self.brace_count = open_braces;
            Turn::Wait
        }
    }
}

} // verus!
