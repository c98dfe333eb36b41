use love_language::error::LoveError;
use love_language::lexer::{Lexer, Token};
use love_language::number::Double;
use love_language::parser::ast::Ast;
use love_language::parser::Parser;
use love_language::shared_types::{BinaryOp, Type, Value};

fn parse_source(source: &str) -> Result<Ast, LoveError> {
    let tokens = Lexer::new(source).tokenize().expect("the source has valid tokens");
    Parser::new(tokens).parse()
}

fn parse_statements(source: &str) -> Vec<Ast> {
    match parse_source(source) {
        Ok(Ast::Program(statements)) => statements,
        other => panic!("expected a program, got {:?}", other),
    }
}

fn parse_expression(source: &str) -> Ast {
    let mut statements = parse_statements(&format!("{};", source));
    assert_eq!(statements.len(), 1);
    match statements.remove(0) {
        Ast::ExpressionStmt(inner) => *inner,
        other => panic!("expected an expression statement, got {:?}", other),
    }
}

fn syntax_error(message: &str) -> Result<Ast, LoveError> {
    Err(LoveError::Parser(message.to_string()))
}

fn num(n: i64) -> Ast {
    Ast::Literal(Value::Number(Double::from_bits((n as f64).to_bits())))
}

fn var(name: &str) -> Ast {
    Ast::Variable(name.to_string())
}

fn binary(left: Ast, operator: BinaryOp, right: Ast) -> Ast {
    Ast::Binary { left: Box::new(left), operator, right: Box::new(right) }
}

#[test]
fn no_tokens_parse_to_an_empty_program() {
    assert_eq!(Parser::new(vec![]).parse(), Ok(Ast::Program(vec![])));
}

#[test]
fn declaration_of_a_sum() {
    assert_eq!(
        parse_source("heart x match 3 cuddle 4;"),
        Ok(Ast::Program(vec![Ast::VariableDecl {
            name: "x".to_string(),
            is_constant: false,
            initializer: Box::new(binary(num(3), BinaryOp::Add, num(4))),
        }]))
    );
}

#[test]
fn constant_declaration_with_a_type() {
    assert_eq!(
        parse_source("forever LOVE: number match 100;"),
        Ok(Ast::Program(vec![Ast::VariableDecl {
            name: "LOVE".to_string(),
            is_constant: true,
            initializer: Box::new(num(100)),
        }]))
    );
}

#[test]
fn literals_of_every_kind() {
    assert_eq!(parse_expression("42"), num(42));
    assert_eq!(parse_expression("-42"), num(-42));
    assert_eq!(parse_expression("\"hi\""), Ast::Literal(Value::Text("hi".to_string())));
    assert_eq!(parse_expression("yes"), Ast::Literal(Value::Boolean(true)));
    assert_eq!(parse_expression("no"), Ast::Literal(Value::Boolean(false)));
    assert_eq!(parse_expression("x"), var("x"));
    assert_eq!(parse_expression("(x)"), Ast::Grouping(Box::new(var("x"))));
}

#[test]
fn number_literals_are_converted_to_the_nearest_double() {
    assert_eq!(
        parse_expression("9007199254740993"),
        Ast::Literal(Value::Number(Double::from_bits(9007199254740992.0f64.to_bits())))
    );
    assert_eq!(
        parse_expression("7"),
        Ast::Literal(Value::Number(Double::from_bits(0x401C_0000_0000_0000)))
    );
}

#[test]
fn product_binds_tighter_than_sum() {
    assert_eq!(
        parse_expression("1 cuddle 2 kiss 3"),
        binary(num(1), BinaryOp::Add, binary(num(2), BinaryOp::Multiply, num(3)))
    );
    assert_eq!(
        parse_expression("1 kiss 2 cuddle 3"),
        binary(binary(num(1), BinaryOp::Multiply, num(2)), BinaryOp::Add, num(3))
    );
    assert_eq!(
        parse_expression("8 split 2 breakup 1"),
        binary(binary(num(8), BinaryOp::Divide, num(2)), BinaryOp::Subtract, num(1))
    );
}

#[test]
fn binary_operators_group_from_the_left() {
    assert_eq!(
        parse_expression("1 breakup 2 breakup 3"),
        binary(binary(num(1), BinaryOp::Subtract, num(2)), BinaryOp::Subtract, num(3))
    );
    assert_eq!(
        parse_expression("8 split 4 split 2"),
        binary(binary(num(8), BinaryOp::Divide, num(4)), BinaryOp::Divide, num(2))
    );
    assert_eq!(
        parse_expression("a envies b envies c"),
        binary(binary(var("a"), BinaryOp::Less, var("b")), BinaryOp::Less, var("c"))
    );
    assert_eq!(
        parse_expression("a or b or c"),
        binary(binary(var("a"), BinaryOp::Or, var("b")), BinaryOp::Or, var("c"))
    );
}

#[test]
fn all_levels_of_binding_power() {
    // a or b and c soulmate d envies e cuddle f kiss g
    let product = binary(var("f"), BinaryOp::Multiply, var("g"));
    let sum = binary(var("e"), BinaryOp::Add, product);
    let order = binary(var("d"), BinaryOp::Less, sum);
    let equal = binary(var("c"), BinaryOp::Equal, order);
    let and = binary(var("b"), BinaryOp::And, equal);
    let or = binary(var("a"), BinaryOp::Or, and);
    assert_eq!(parse_expression("a or b and c soulmate d envies e cuddle f kiss g"), or);
}

#[test]
fn every_binary_operator_is_parsed() {
    let cases = vec![
        ("cuddle", BinaryOp::Add),
        ("breakup", BinaryOp::Subtract),
        ("kiss", BinaryOp::Multiply),
        ("split", BinaryOp::Divide),
        ("soulmate", BinaryOp::Equal),
        ("heartbreak", BinaryOp::NotEqual),
        ("envies", BinaryOp::Less),
        ("admires", BinaryOp::Greater),
        ("yearns", BinaryOp::LessEqual),
        ("adores", BinaryOp::GreaterEqual),
        ("and", BinaryOp::And),
        ("or", BinaryOp::Or),
    ];
    for (word, operator) in cases {
        assert_eq!(
            parse_expression(&format!("a {} b", word)),
            binary(var("a"), operator, var("b")),
            "operator {}",
            word
        );
    }
}

#[test]
fn parentheses_override_binding_power() {
    assert_eq!(
        parse_expression("(1 cuddle 2) kiss 3"),
        binary(
            Ast::Grouping(Box::new(binary(num(1), BinaryOp::Add, num(2)))),
            BinaryOp::Multiply,
            num(3)
        )
    );
}

#[test]
fn not_is_a_prefix_and_nests() {
    assert_eq!(
        parse_expression("not yes"),
        Ast::Unary {
            operator: BinaryOp::Not,
            operand: Box::new(Ast::Literal(Value::Boolean(true))),
        }
    );
    assert_eq!(
        parse_expression("not not x"),
        Ast::Unary {
            operator: BinaryOp::Not,
            operand: Box::new(Ast::Unary { operator: BinaryOp::Not, operand: Box::new(var("x")) }),
        }
    );
    assert_eq!(
        parse_expression("not a and b"),
        binary(
            Ast::Unary { operator: BinaryOp::Not, operand: Box::new(var("a")) },
            BinaryOp::And,
            var("b")
        )
    );
}

#[test]
fn assignment_groups_from_the_right() {
    assert_eq!(
        parse_expression("a match b match 3"),
        Ast::Assign {
            name: "a".to_string(),
            value: Box::new(Ast::Assign { name: "b".to_string(), value: Box::new(num(3)) }),
        }
    );
    assert_eq!(
        parse_expression("a match 1 cuddle 2"),
        Ast::Assign {
            name: "a".to_string(),
            value: Box::new(binary(num(1), BinaryOp::Add, num(2))),
        }
    );
}

#[test]
fn only_a_bare_name_can_be_assigned() {
    assert_eq!(parse_source("1 match 2;"), syntax_error("Invalid assignment target"));
    assert_eq!(parse_source("(a) match 2;"), syntax_error("Invalid assignment target"));
    assert_eq!(parse_source("a cuddle b match 2;"), syntax_error("Invalid assignment target"));
    assert_eq!(parse_source("\"a\" match 2;"), syntax_error("Invalid assignment target"));
}

#[test]
fn print_statement() {
    assert_eq!(
        parse_statements("whisper \"Hello Love!\";"),
        vec![Ast::PrintStmt(Box::new(Ast::Literal(Value::Text("Hello Love!".to_string()))))]
    );
}

#[test]
fn return_statement_with_and_without_a_value() {
    assert_eq!(parse_statements("promise;"), vec![Ast::ReturnStmt(None)]);
    assert_eq!(
        parse_statements("promise x cuddle 1;"),
        vec![Ast::ReturnStmt(Some(Box::new(binary(var("x"), BinaryOp::Add, num(1)))))]
    );
}

#[test]
fn if_with_and_without_else() {
    assert_eq!(
        parse_statements("crush (x envies 3) { whisper x; }"),
        vec![Ast::If {
            condition: Box::new(binary(var("x"), BinaryOp::Less, num(3))),
            then_branch: vec![Ast::PrintStmt(Box::new(var("x")))],
            else_branch: None,
        }]
    );
    assert_eq!(
        parse_statements("crush (yes) { } butterflies { 1; 2; }"),
        vec![Ast::If {
            condition: Box::new(Ast::Literal(Value::Boolean(true))),
            then_branch: vec![],
            else_branch: Some(vec![
                Ast::ExpressionStmt(Box::new(num(1))),
                Ast::ExpressionStmt(Box::new(num(2))),
            ]),
        }]
    );
}

#[test]
fn while_statement() {
    assert_eq!(
        parse_statements("dating (x admires 0) { x match x breakup 1; }"),
        vec![Ast::While {
            condition: Box::new(binary(var("x"), BinaryOp::Greater, num(0))),
            body: vec![Ast::ExpressionStmt(Box::new(Ast::Assign {
                name: "x".to_string(),
                value: Box::new(binary(var("x"), BinaryOp::Subtract, num(1))),
            }))],
        }]
    );
}

#[test]
fn blocks_nest_and_hold_declarations() {
    assert_eq!(
        parse_statements("{ heart a match 1; { a; } }"),
        vec![Ast::Block(vec![
            Ast::VariableDecl {
                name: "a".to_string(),
                is_constant: false,
                initializer: Box::new(num(1)),
            },
            Ast::Block(vec![Ast::ExpressionStmt(Box::new(var("a")))]),
        ])]
    );
    assert_eq!(parse_statements("{}"), vec![Ast::Block(vec![])]);
}

#[test]
fn function_declarations() {
    assert_eq!(
        parse_statements("devotion add(a: number, b: number) -> number { promise a cuddle b; }"),
        vec![Ast::FunctionDecl {
            name: "add".to_string(),
            params: vec![("a".to_string(), Type::Number), ("b".to_string(), Type::Number)],
            return_type: Some(Type::Number),
            body: vec![Ast::ReturnStmt(Some(Box::new(binary(
                var("a"),
                BinaryOp::Add,
                var("b")
            ))))],
        }]
    );
    assert_eq!(
        parse_statements("devotion greet() { }"),
        vec![Ast::FunctionDecl {
            name: "greet".to_string(),
            params: vec![],
            return_type: None,
            body: vec![],
        }]
    );
    assert_eq!(
        parse_statements("devotion f(t: text, b: feeling) -> text { }"),
        vec![Ast::FunctionDecl {
            name: "f".to_string(),
            params: vec![("t".to_string(), Type::Text), ("b".to_string(), Type::Boolean)],
            return_type: Some(Type::Text),
            body: vec![],
        }]
    );
}

#[test]
fn several_statements_in_order() {
    assert_eq!(
        parse_statements("heart x match 1; x match 2; whisper x;"),
        vec![
            Ast::VariableDecl {
                name: "x".to_string(),
                is_constant: false,
                initializer: Box::new(num(1)),
            },
            Ast::ExpressionStmt(Box::new(Ast::Assign {
                name: "x".to_string(),
                value: Box::new(num(2)),
            })),
            Ast::PrintStmt(Box::new(var("x"))),
        ]
    );
}

#[test]
fn errors_of_variable_declarations() {
    assert_eq!(parse_source("heart"), syntax_error("Expected variable name"));
    assert_eq!(parse_source("heart 3"), syntax_error("Expected variable name"));
    assert_eq!(parse_source("forever match 3;"), syntax_error("Expected variable name"));
    assert_eq!(parse_source("heart x"), syntax_error("Expected 'match' after variable name"));
    assert_eq!(parse_source("heart x 3;"), syntax_error("Expected 'match' after variable name"));
    assert_eq!(parse_source("heart x: match 3;"), syntax_error("Expected type"));
    assert_eq!(parse_source("heart x:"), syntax_error("Expected type"));
    assert_eq!(parse_source("heart x match"), syntax_error("Expected expression"));
    assert_eq!(
        parse_source("heart x match 3"),
        syntax_error("Expected ';' after variable declaration")
    );
    assert_eq!(
        parse_source("heart x match 3 4;"),
        syntax_error("Expected ';' after variable declaration")
    );
}

#[test]
fn errors_of_statements() {
    assert_eq!(parse_source("whisper x"), syntax_error("Expected ';' after value"));
    assert_eq!(parse_source("whisper"), syntax_error("Expected expression"));
    assert_eq!(parse_source("x"), syntax_error("Expected ';' after expression"));
    assert_eq!(parse_source("promise x"), syntax_error("Expected ';' after return value"));
    assert_eq!(parse_source("promise"), syntax_error("Expected expression"));
    assert_eq!(parse_source("crush x"), syntax_error("Expected '(' after 'crush'"));
    assert_eq!(parse_source("crush (x { }"), syntax_error("Expected ')' after condition"));
    assert_eq!(parse_source("crush (x) whisper x;"), syntax_error("Expected '{' before block"));
    assert_eq!(parse_source("crush (x) { whisper x;"), syntax_error("Expected '}' after block"));
    assert_eq!(
        parse_source("crush (x) { } butterflies x;"),
        syntax_error("Expected '{' before block")
    );
    assert_eq!(parse_source("dating x"), syntax_error("Expected '(' after 'dating'"));
    assert_eq!(parse_source("dating (x"), syntax_error("Expected ')' after condition"));
    assert_eq!(parse_source("dating (x)"), syntax_error("Expected '{' before block"));
    assert_eq!(parse_source("{ x;"), syntax_error("Expected '}' after block"));
    assert_eq!(parse_source("}"), syntax_error("Expected expression"));
    assert_eq!(parse_source(";"), syntax_error("Expected expression"));
    assert_eq!(parse_source("butterflies { }"), syntax_error("Expected expression"));
}

#[test]
fn errors_of_expressions() {
    assert_eq!(parse_source("1 cuddle;"), syntax_error("Expected expression"));
    assert_eq!(parse_source("1 cuddle"), syntax_error("Expected expression"));
    assert_eq!(parse_source("not"), syntax_error("Expected expression"));
    assert_eq!(parse_source("(1 cuddle 2;"), syntax_error("Expected ')' after expression"));
    assert_eq!(parse_source("(1"), syntax_error("Expected ')' after expression"));
    assert_eq!(parse_source("()"), syntax_error("Expected expression"));
    assert_eq!(parse_source("x match;"), syntax_error("Expected expression"));
    assert_eq!(parse_source("kiss 2;"), syntax_error("Expected expression"));
}

#[test]
fn errors_of_function_declarations() {
    assert_eq!(parse_source("devotion"), syntax_error("Expected function name"));
    assert_eq!(parse_source("devotion ("), syntax_error("Expected function name"));
    assert_eq!(parse_source("devotion f"), syntax_error("Expected '(' after function name"));
    assert_eq!(parse_source("devotion f {"), syntax_error("Expected '(' after function name"));
    assert_eq!(parse_source("devotion f("), syntax_error("Expected parameter name"));
    assert_eq!(parse_source("devotion f(3"), syntax_error("Expected parameter name"));
    assert_eq!(parse_source("devotion f(a"), syntax_error("Expected ':' after parameter name"));
    assert_eq!(parse_source("devotion f(a)"), syntax_error("Expected ':' after parameter name"));
    assert_eq!(parse_source("devotion f(a:"), syntax_error("Expected type"));
    assert_eq!(parse_source("devotion f(a: b)"), syntax_error("Expected type"));
    assert_eq!(parse_source("devotion f(a: number"), syntax_error("Expected ')' after parameters"));
    assert_eq!(
        parse_source("devotion f(a: number b: text)"),
        syntax_error("Expected ')' after parameters")
    );
    assert_eq!(parse_source("devotion f(a: number,)"), syntax_error("Expected parameter name"));
    assert_eq!(parse_source("devotion f() ->"), syntax_error("Expected type"));
    assert_eq!(parse_source("devotion f() -> {"), syntax_error("Expected type"));
    assert_eq!(parse_source("devotion f()"), syntax_error("Expected '{' before block"));
    assert_eq!(
        parse_source("devotion f() -> number x"),
        syntax_error("Expected '{' before block")
    );
    assert_eq!(parse_source("devotion f() { x;"), syntax_error("Expected '}' after block"));
}

#[test]
fn an_open_parenthesis_at_the_end_is_an_error() {
    assert_eq!(parse_source("whisper ("), syntax_error("Expected expression"));
    assert_eq!(parse_source("("), syntax_error("Expected expression"));
    assert_eq!(parse_source("((("), syntax_error("Expected expression"));
    assert_eq!(parse_source("x match ("), syntax_error("Expected expression"));
}

#[test]
fn the_first_error_stops_the_parse() {
    assert_eq!(
        parse_source("heart x match ; heart 3;"),
        syntax_error("Expected expression")
    );
    assert_eq!(
        parse_source("whisper 1; heart match 2; whisper"),
        syntax_error("Expected variable name")
    );
}

#[test]
fn the_error_token_is_rejected_by_the_grammar() {
    assert_eq!(Parser::new(vec![Token::Error]).parse(), syntax_error("Expected expression"));
    assert_eq!(
        Parser::new(vec![Token::Heart, Token::Error]).parse(),
        syntax_error("Expected variable name")
    );
}

#[test]
fn keywords_without_a_rule_are_rejected() {
    assert_eq!(parse_source("lonely;"), syntax_error("Expected expression"));
    assert_eq!(parse_source("relationship;"), syntax_error("Expected expression"));
    assert_eq!(parse_source("x -> y;"), syntax_error("Expected ';' after expression"));
    assert_eq!(parse_source("f(1);"), syntax_error("Expected ';' after expression"));
}

#[test]
fn a_parser_that_has_read_everything_gives_an_empty_program() {
    let tokens = Lexer::new("whisper 1;").tokenize().unwrap();
    let mut parser = Parser::new(tokens);
    assert_eq!(
        parser.parse(),
        Ok(Ast::Program(vec![Ast::PrintStmt(Box::new(num(1)))]))
    );
    assert_eq!(parser.parse(), Ok(Ast::Program(vec![])));
}

#[test]
fn deeply_nested_input_is_parsed() {
    let depth = 40;
    let source = format!("{}1{};", "(".repeat(depth), ")".repeat(depth));
    let mut expected = num(1);
    for _ in 0..depth {
        expected = Ast::Grouping(Box::new(expected));
    }
    assert_eq!(parse_expression(source.trim_end_matches(';')), expected);
}
