//! Flavour for the console: hearts, cheers and consolations picked at random,
//! the border drawn around a message, and the commands that the session
//! answers itself.
use crate::error::LoveError;
use crate::text::{chars_of, check_same, trim_bounds, trimmed};
use rand::Rng;
use vstd::prelude::*;

verus! {

/// Calls `rand::Rng::gen_range` on the generator of the thread, with the range
/// from 0 up to and without `n`: some number of that range, another at each
/// call. The range must hold a number, or the call panics.
#[verifier::external_body]
fn random_below(n: usize) -> (r: usize)
    requires
        n > 0,
    ensures
        r < n,
{
    rand::thread_rng().gen_range(0..n)
}

/// The hearts that greet the user.
pub open spec fn love_emojis() -> Seq<Seq<char>> {
    seq![
        "ğŸ’"@,
        "ğŸ’–"@,
        "ğŸ’—"@,
        "ğŸ’“"@,
        "ğŸ’•"@,
        "ğŸ’"@,
        "ğŸ’˜"@,
        "ğŸ’Ÿ"@,
        "â¤ï¸"@,
        "ğŸ«€"@,
        "ğŸ˜"@,
        "ğŸ¥°"@,
    ]
}

/// What is said when a line went well.
pub open spec fn success_messages() -> Seq<Seq<char>> {
    seq![
        "Love is in the air!"@,
        "Your code is beautiful!"@,
        "What a lovely expression!"@,
        "You're coding with passion!"@,
        "Your heart flows through the code!"@,
        "Such romantic programming!"@,
        "Love at first byte!"@,
        "Your code makes my heart skip a beat!"@,
    ]
}

/// What is said when a line went wrong.
pub open spec fn error_messages() -> Seq<Seq<char>> {
    seq![
        "Oh no, heartbreak! ğŸ’”"@,
        "Love hurts sometimes... ğŸ˜¢"@,
        "Not all love stories work out... ğŸ’”"@,
        "Even Romeo and Juliet had bugs... ğŸ¥€"@,
        "Time to mend this broken heart... ğŸ’"@,
        "Love is patient, love is kind, but this code needs fixing! ğŸ”§"@,
    ]
}

/// The quotes on love and code.
pub open spec fn love_quotes() -> Seq<Seq<char>> {
    seq![
        "In code as in love, simplicity is beautiful."@,
        "Every function call is a love letter to the CPU."@,
        "Bug-free code is true love."@,
        "Variables may be undefined, but our love for coding isn't."@,
        "The best code is written with love."@,
    ]
}

/// The heart at place `i`.
fn love_emoji(i: usize) -> (r: &'static str)
    requires
        i < 12,
    ensures
        r@ == love_emojis()[i as int],
{
    match i {
        0 => "ğŸ’",
        1 => "ğŸ’–",
        2 => "ğŸ’—",
        3 => "ğŸ’“",
        4 => "ğŸ’•",
        5 => "ğŸ’",
        6 => "ğŸ’˜",
        7 => "ğŸ’Ÿ",
        8 => "â¤ï¸",
        9 => "ğŸ«€",
        10 => "ğŸ˜",
        _ => "ğŸ¥°",
    }
}

/// The cheer at place `i`.
fn success_message(i: usize) -> (r: &'static str)
    requires
        i < 8,
    ensures
        r@ == success_messages()[i as int],
{
    match i {
        0 => "Love is in the air!",
        1 => "Your code is beautiful!",
        2 => "What a lovely expression!",
        3 => "You're coding with passion!",
        4 => "Your heart flows through the code!",
        5 => "Such romantic programming!",
        6 => "Love at first byte!",
        _ => "Your code makes my heart skip a beat!",
    }
}

/// The consolation at place `i`.
fn error_message(i: usize) -> (r: &'static str)
    requires
        i < 6,
    ensures
        r@ == error_messages()[i as int],
{
    match i {
        0 => "Oh no, heartbreak! ğŸ’”",
        1 => "Love hurts sometimes... ğŸ˜¢",
        2 => "Not all love stories work out... ğŸ’”",
        3 => "Even Romeo and Juliet had bugs... ğŸ¥€",
        4 => "Time to mend this broken heart... ğŸ’",
        _ => "Love is patient, love is kind, but this code needs fixing! ğŸ”§",
    }
}

/// The quote at place `i`.
fn love_quote(i: usize) -> (r: &'static str)
    requires
        i < 5,
    ensures
        r@ == love_quotes()[i as int],
{
    match i {
        0 => "In code as in love, simplicity is beautiful.",
        1 => "Every function call is a love letter to the CPU.",
        2 => "Bug-free code is true love.",
        3 => "Variables may be undefined, but our love for coding isn't.",
        _ => "The best code is written with love.",
    }
}

/// One of the hearts, picked at random.
pub fn get_random_emoji() -> (r: String)
    ensures
        exists|i: int| 0 <= i < 12 && r@ == #[trigger] love_emojis()[i],
{
    let i = random_below(12);
    love_emoji(i).to_owned()
}

/// One of the cheers, picked at random.
pub fn get_random_success_message() -> (r: String)
    ensures
        exists|i: int| 0 <= i < 8 && r@ == #[trigger] success_messages()[i],
{
    let i = random_below(8);
    success_message(i).to_owned()
}

/// One of the consolations, picked at random.
pub fn get_random_error_message() -> (r: String)
    ensures
        exists|i: int| 0 <= i < 6 && r@ == #[trigger] error_messages()[i],
{
    let i = random_below(6);
    error_message(i).to_owned()
}

/// One of the quotes, picked at random.
pub fn get_random_love_quote() -> (r: String)
    ensures
        exists|i: int| 0 <= i < 5 && r@ == #[trigger] love_quotes()[i],
{
    let i = random_below(5);
    love_quote(i).to_owned()
}

/// An error as the console shows it: one of the consolations, and on the
/// next line the message of the error.
pub fn format_error(error: &LoveError) -> (r: String)
    ensures
        exists|i: int|
            0 <= i < 6 && r@ == #[trigger] error_messages()[i] + "\n"@ + error@.message(),
{
    let mut out = get_random_error_message();
    out.append("\n");
    match error {
        LoveError::Lexer(msg) => out.append(msg.as_str()),
        LoveError::Parser(msg) => out.append(msg.as_str()),
        LoveError::Runtime(msg) => out.append(msg.as_str()),
        LoveError::Type(msg) => out.append(msg.as_str()),
    }
    out
}

/// The mark that borders are drawn with.
pub open spec fn border_mark() -> Seq<char> {
    "â™¥"@
}

/// The mark `n` times over.
pub open spec fn border_line(n: nat) -> Seq<char>
    decreases n,
{
    if n == 0 {
        Seq::empty()
    } else {
        border_line((n - 1) as nat) + border_mark()
    }
}

/// A message framed by two lines of marks, four marks longer than the message
/// has bytes, with one mark at each side of the message.
pub open spec fn love_border(message: &str) -> Seq<char> {
    let line = border_line((message.len() + 4) as nat);
    line + "\n"@ + border_mark() + " "@ + message@ + " "@ + border_mark() + "\n"@ + line
}

/// Appends the mark `n` times over to `out`.
fn push_border_line(out: &mut String, n: usize)
    ensures
        final(out)@ == old(out)@ + border_line(n as nat),
{
    let mut k: usize = 0;
    while k < n
        invariant
            k <= n,
            out@ == old(out)@ + border_line(k as nat),
        decreases n - k,
    {
        out.append("â™¥");
        k += 1;
    }
}

/// The message in its frame.
pub fn create_love_border(message: &str) -> (r: String)
    requires
        message.len() + 4 <= usize::MAX,
    ensures
        r@ == love_border(message),
{
    let width: usize = message.len() + 4;
    let mut out = String::new();
    push_border_line(&mut out, width);
    out.append("\n");
    out.append("â™¥");
    out.append(" ");
    out.append(message);
    out.append(" ");
    out.append("â™¥");
    out.append("\n");
    push_border_line(&mut out, width);
    out
}

/// A command that the session answers itself.
#[derive(Debug, Clone, Copy, PartialEq, Eq, Structural)]
pub enum SpecialCommand {
    /// `love help`: the quick guide.
    Help,
    /// `love quote`: a quote on love and code.
    Quote,
}

/// The command that a line gives, white space around it aside, if it gives
/// one.
pub open spec fn special_command(line: Seq<char>) -> Option<SpecialCommand> {
    if trimmed(line) == "love help"@ {
        Some(SpecialCommand::Help)
    } else if trimmed(line) == "love quote"@ {
        Some(SpecialCommand::Quote)
    } else {
        None
    }
}

/// Tells whether the line is a command for the session itself, and which.
pub fn handle_special_commands(line: &str) -> (r: Option<SpecialCommand>)
    ensures
        r == special_command(line@),
{
    let chars = chars_of(line);
    let (start, end) = trim_bounds(&chars);
    let help = chars_of("love help");
    let quote = chars_of("love quote");
    if check_same(&chars, start, end, &help) {
        Some(SpecialCommand::Help)
    } else if check_same(&chars, start, end, &quote) {
        Some(SpecialCommand::Quote)
    } else {
        None
    }
}

} // verus!
