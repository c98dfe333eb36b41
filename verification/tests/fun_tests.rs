use love_language::error::LoveError;
use love_language::fun::{
    create_love_border, format_error, get_random_emoji, get_random_error_message,
    get_random_love_quote, get_random_success_message, handle_special_commands, SpecialCommand,
};

const MARK: &str = "\u{e2}\u{2122}\u{a5}";

#[test]
fn border_is_four_marks_longer_than_the_message_has_bytes() {
    let framed = create_love_border("hi");
    let line = MARK.repeat(6);
    assert_eq!(framed, format!("{}\n{} hi {}\n{}", line, MARK, MARK, line));
}

#[test]
fn border_of_an_empty_message() {
    let line = MARK.repeat(4);
    assert_eq!(create_love_border(""), format!("{}\n{}  {}\n{}", line, MARK, MARK, line));
}

#[test]
fn border_counts_bytes_not_characters() {
    let message = "é\u{1f49d}";
    assert_eq!(message.len(), 6);
    let line = MARK.repeat(10);
    assert_eq!(
        create_love_border(message),
        format!("{}\n{} {} {}\n{}", line, MARK, message, MARK, line)
    );
}

#[test]
fn random_picks_come_from_their_tables() {
    let emojis = [
        "\u{11f}\u{178}\u{2019}",
        "\u{11f}\u{178}\u{2019}\u{2013}",
        "\u{11f}\u{178}\u{2019}\u{2014}",
        "\u{11f}\u{178}\u{2019}\u{201c}",
        "\u{11f}\u{178}\u{2019}\u{2022}",
        "\u{11f}\u{178}\u{2019}\u{2dc}",
        "\u{11f}\u{178}\u{2019}\u{178}",
        "\u{e2}\u{a4}\u{ef}\u{b8}",
        "\u{11f}\u{178}\u{ab}\u{20ac}",
        "\u{11f}\u{178}\u{2dc}",
        "\u{11f}\u{178}\u{a5}\u{b0}",
    ];
    let cheers = [
        "Love is in the air!",
        "Your code is beautiful!",
        "What a lovely expression!",
        "You're coding with passion!",
        "Your heart flows through the code!",
        "Such romantic programming!",
        "Love at first byte!",
        "Your code makes my heart skip a beat!",
    ];
    let quotes = [
        "In code as in love, simplicity is beautiful.",
        "Every function call is a love letter to the CPU.",
        "Bug-free code is true love.",
        "Variables may be undefined, but our love for coding isn't.",
        "The best code is written with love.",
    ];
    for _ in 0..200 {
        let emoji = get_random_emoji();
        assert!(emojis.contains(&emoji.as_str()), "{:?}", emoji);
        let cheer = get_random_success_message();
        assert!(cheers.contains(&cheer.as_str()), "{:?}", cheer);
        let quote = get_random_love_quote();
        assert!(quotes.contains(&quote.as_str()), "{:?}", quote);
        let sorry = get_random_error_message();
        assert!(
            sorry.starts_with("Oh no, heartbreak!")
                || sorry.starts_with("Love hurts sometimes...")
                || sorry.starts_with("Not all love stories work out...")
                || sorry.starts_with("Even Romeo and Juliet had bugs...")
                || sorry.starts_with("Time to mend this broken heart...")
                || sorry.starts_with("Love is patient, love is kind, but this code needs fixing!"),
            "{:?}",
            sorry
        );
    }
}

#[test]
fn random_picks_vary() {
    let first = get_random_success_message();
    let mut varied = false;
    for _ in 0..500 {
        if get_random_success_message() != first {
            varied = true;
        }
    }
    assert!(varied);
}

#[test]
fn special_commands_are_recognised_with_white_space_around() {
    assert_eq!(handle_special_commands("love help"), Some(SpecialCommand::Help));
    assert_eq!(handle_special_commands("  love help \n"), Some(SpecialCommand::Help));
    assert_eq!(handle_special_commands("love quote"), Some(SpecialCommand::Quote));
    assert_eq!(handle_special_commands("\tlove quote\t"), Some(SpecialCommand::Quote));
    assert_eq!(handle_special_commands("love story"), None);
    assert_eq!(handle_special_commands("love  help"), None);
    assert_eq!(handle_special_commands("Love help"), None);
    assert_eq!(handle_special_commands("love help;"), None);
    assert_eq!(handle_special_commands(""), None);
    assert_eq!(handle_special_commands("heart x match 1;"), None);
}

#[test]
fn an_error_is_shown_under_a_consolation() {
    let errors = vec![
        LoveError::Lexer("Invalid token at line 1, column 1".to_string()),
        LoveError::Parser("Expected expression".to_string()),
        LoveError::Runtime("Cannot split by zero!".to_string()),
        LoveError::Type("Expected number, but found text".to_string()),
    ];
    let message = |e: &LoveError| match e {
        LoveError::Lexer(m) | LoveError::Parser(m) | LoveError::Runtime(m) | LoveError::Type(m) => {
            m.clone()
        }
    };
    for e in errors {
        for _ in 0..20 {
            let shown = format_error(&e);
            let (first, rest) = shown.split_once('\n').expect("two lines");
            assert_eq!(rest, message(&e));
            assert!(
                first.starts_with("Oh no, heartbreak!")
                    || first.starts_with("Love hurts sometimes...")
                    || first.starts_with("Not all love stories work out...")
                    || first.starts_with("Even Romeo and Juliet had bugs...")
                    || first.starts_with("Time to mend this broken heart...")
                    || first.starts_with("Love is patient, love is kind, but this code needs fixing!"),
                "{:?}",
                first
            );
        }
    }
}
