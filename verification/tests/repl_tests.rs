use love_language::error::LoveError;
use love_language::fun::SpecialCommand;
use love_language::interpreter::Interpreter;
use love_language::number::Double;
use love_language::repl::{count_braces, execute_line, Session, Turn};
use love_language::runner::{execute, validate_syntax, Runner};
use love_language::shared_types::Value;

fn seven() -> Value {
    Value::Number(Double::from_bits(7.0f64.to_bits()))
}

#[test]
fn braces_are_counted() {
    assert_eq!(count_braces(""), 0);
    assert_eq!(count_braces("{"), 1);
    assert_eq!(count_braces("}"), -1);
    assert_eq!(count_braces("{}"), 0);
    assert_eq!(count_braces("crush (x) { { }"), 1);
    assert_eq!(count_braces("} } butterflies {"), -1);
    assert_eq!(count_braces("whisper \"{{{\";"), 3);
    assert_eq!(count_braces("no braces at all"), 0);
    assert_eq!(count_braces(&"{".repeat(1000)), 1000);
    assert_eq!(count_braces(&"}".repeat(1000)), -1000);
}

#[test]
fn a_blank_line_runs_to_nothing() {
    let mut interpreter = Interpreter::new();
    assert_eq!(execute_line("", &mut interpreter), Ok(Value::Null));
    assert_eq!(execute_line("   \t\n", &mut interpreter), Ok(Value::Null));
    assert_eq!(execute_line("\r\n", &mut interpreter), Ok(Value::Null));
    assert_eq!(execute_line("\u{a0}", &mut interpreter), Ok(Value::Null));
}

#[test]
fn a_line_is_scanned_parsed_and_evaluated() {
    let mut interpreter = Interpreter::new();
    assert_eq!(execute_line("heart x match 3 cuddle 4;\n", &mut interpreter), Ok(seven()));
    assert_eq!(execute_line("x;", &mut interpreter), Ok(seven()));
    assert_eq!(execute("x;", &mut interpreter), Ok(seven()));
}

#[test]
fn an_earlier_stage_that_fails_keeps_the_later_ones_from_running() {
    let mut interpreter = Interpreter::new();
    assert_eq!(
        execute_line("heart x match 1; whisper x; @", &mut interpreter),
        Err(LoveError::Lexer("Invalid token at line 1, column 29".to_string()))
    );
    assert_eq!(interpreter.environment().get("x"), None);
    assert_eq!(interpreter.take_output(), vec![]);
    assert_eq!(
        execute_line("heart x match 1; whisper x; heart", &mut interpreter),
        Err(LoveError::Parser("Expected variable name".to_string()))
    );
    assert_eq!(interpreter.environment().get("x"), None);
    assert_eq!(interpreter.take_output(), vec![]);
    assert_eq!(
        execute_line("heart x match 7; whisper x; y;", &mut interpreter),
        Err(LoveError::Runtime("Undefined variable 'y'.".to_string()))
    );
    assert_eq!(interpreter.environment().get("x"), Some(&seven()));
    assert_eq!(interpreter.take_output(), vec![seven()]);
    assert_eq!(
        execute_line("1 cuddle \"a\";", &mut interpreter),
        Err(LoveError::Type("Expected number, but found text".to_string()))
    );
}

#[test]
fn syntax_is_validated_without_running() {
    assert_eq!(validate_syntax(""), Ok(()));
    assert_eq!(validate_syntax("heart x match 1;"), Ok(()));
    assert_eq!(validate_syntax("x;"), Ok(()));
    assert_eq!(validate_syntax("1 split 0;"), Ok(()));
    assert_eq!(
        validate_syntax("heart x match"),
        Err(LoveError::Parser("Expected expression".to_string()))
    );
    assert_eq!(
        validate_syntax("heart x match 1;\n?"),
        Err(LoveError::Lexer("Invalid token at line 2, column 1".to_string()))
    );
}

#[test]
fn a_complete_line_is_run_at_once() {
    let mut session = Session::new();
    assert!(!session.in_block());
    assert_eq!(
        session.feed("heart x match 1;"),
        Turn::Run("heart x match 1;\n".to_string())
    );
    assert!(!session.in_block());
    assert_eq!(session.feed("  x; "), Turn::Run("  x; \n".to_string()));
}

#[test]
fn special_commands_and_goodbye_leave_the_pending_input_alone() {
    let mut session = Session::new();
    assert_eq!(session.feed("crush (yes) {"), Turn::Wait);
    assert!(session.in_block());
    assert_eq!(session.feed("love help"), Turn::Special(SpecialCommand::Help));
    assert_eq!(session.feed(" love quote "), Turn::Special(SpecialCommand::Quote));
    assert!(session.in_block());
    assert_eq!(session.feed("whisper 1;"), Turn::Wait);
    assert_eq!(
        session.feed("}"),
        Turn::Run("crush (yes) {\nwhisper 1;\n}\n".to_string())
    );
    assert!(!session.in_block());
    assert_eq!(session.feed("breakup;"), Turn::Quit);
    assert_eq!(session.feed("  BreakUp;  "), Turn::Quit);
    assert_eq!(session.feed("BREAKUP;"), Turn::Quit);
}

#[test]
fn a_line_without_its_semicolon_is_dropped() {
    let mut session = Session::new();
    assert_eq!(session.feed("heart x match 1"), Turn::MissingSemicolon);
    assert_eq!(session.feed("x;"), Turn::Run("x;\n".to_string()));
    assert_eq!(session.feed("breakup"), Turn::MissingSemicolon);
    assert_eq!(session.feed("{ x }  y"), Turn::MissingSemicolon);
}

#[test]
fn a_function_header_may_stand_without_a_semicolon() {
    let mut session = Session::new();
    assert_eq!(session.feed("devotion f()"), Turn::Wait);
    assert!(!session.in_block());
    assert_eq!(session.feed("{"), Turn::Wait);
    assert!(session.in_block());
    assert_eq!(session.feed("}"), Turn::Run("devotion f()\n{\n}\n".to_string()));
}

#[test]
fn blank_lines_wait_and_are_kept() {
    let mut session = Session::new();
    assert_eq!(session.feed(""), Turn::Wait);
    assert_eq!(session.feed("   "), Turn::Wait);
    assert_eq!(session.feed("x;"), Turn::Run("\n   \nx;\n".to_string()));
}

#[test]
fn more_closing_braces_than_opening_ones_drop_the_input() {
    let mut session = Session::new();
    assert_eq!(session.feed("}"), Turn::UnmatchedBrace);
    assert!(!session.in_block());
    assert_eq!(session.feed("x;"), Turn::Run("x;\n".to_string()));
    assert_eq!(session.feed("{ {"), Turn::Wait);
    assert_eq!(session.feed("} } }"), Turn::UnmatchedBrace);
    assert_eq!(session.feed("{"), Turn::Wait);
    assert_eq!(session.feed("}"), Turn::Run("{\n}\n".to_string()));
}

#[test]
fn open_blocks_gather_lines_until_they_close() {
    let mut session = Session::new();
    assert_eq!(session.feed("devotion add(a: number, b: number) {"), Turn::Wait);
    assert!(session.in_block());
    assert_eq!(session.feed("  crush (a envies b) {"), Turn::Wait);
    assert_eq!(session.feed("    promise a;"), Turn::Wait);
    assert_eq!(session.feed("  }"), Turn::Wait);
    assert!(session.in_block());
    assert_eq!(session.feed("  promise b"), Turn::Wait);
    assert_eq!(
        session.feed("}"),
        Turn::Run(
            "devotion add(a: number, b: number) {\n  crush (a envies b) {\n    promise a;\n  }\n  promise b\n}\n"
                .to_string()
        )
    );
}

#[test]
fn a_line_that_opens_a_block_and_ends_in_a_semicolon_waits() {
    let mut session = Session::new();
    assert_eq!(session.feed("{ x;"), Turn::Wait);
    assert_eq!(session.feed("y; }"), Turn::Run("{ x;\ny; }\n".to_string()));
}

#[test]
fn only_the_love_extension_is_accepted() {
    assert_eq!(Runner::check_extension(Some("love")), Ok(()));
    assert_eq!(
        Runner::check_extension(Some("txt")),
        Err(LoveError::Runtime("Only .love files can contain our love story! \u{1f49d}".to_string()))
    );
    assert_eq!(
        Runner::check_extension(Some("LOVE")),
        Err(LoveError::Runtime("Only .love files can contain our love story! \u{1f49d}".to_string()))
    );
    assert_eq!(
        Runner::check_extension(Some("")),
        Err(LoveError::Runtime("Only .love files can contain our love story! \u{1f49d}".to_string()))
    );
    assert_eq!(
        Runner::check_extension(None),
        Err(LoveError::Runtime("File must have a .love extension! \u{1f49d}".to_string()))
    );
}

#[test]
fn a_runner_runs_scripts_against_one_interpreter() {
    let mut runner = Runner::new();
    assert_eq!(runner.run_file("heart x match 3 cuddle 4;\nwhisper x;\n"), Ok(()));
    assert_eq!(runner.take_output(), vec![seven()]);
    assert_eq!(runner.run_file("whisper x kiss 1;"), Ok(()));
    assert_eq!(runner.take_output(), vec![seven()]);
    assert_eq!(
        runner.run_file("whisper 1; y;"),
        Err(LoveError::Runtime("Undefined variable 'y'.".to_string()))
    );
    assert_eq!(
        runner.take_output(),
        vec![Value::Number(Double::from_bits(1.0f64.to_bits()))]
    );
    assert_eq!(
        runner.run_file("heart"),
        Err(LoveError::Parser("Expected variable name".to_string()))
    );
    assert_eq!(
        runner.run_file("#"),
        Err(LoveError::Lexer("Invalid token at line 1, column 1".to_string()))
    );
    assert_eq!(runner.run_file(""), Ok(()));
}
