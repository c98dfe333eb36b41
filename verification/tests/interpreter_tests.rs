use love_language::error::LoveError;
use love_language::interpreter::{Environment, Interpreter, CALL_DEPTH_LIMIT};
use love_language::lexer::Lexer;
use love_language::number::Double;
use love_language::parser::ast::Ast;
use love_language::parser::Parser;
use love_language::shared_types::{BinaryOp, Type, Value};

fn number(x: f64) -> Value {
    Value::Number(Double::from_bits(x.to_bits()))
}

fn text(s: &str) -> Value {
    Value::Text(s.to_string())
}

fn lit(value: Value) -> Ast {
    Ast::Literal(value)
}

fn name(n: &str) -> Ast {
    Ast::Variable(n.to_string())
}

fn op(left: Ast, operator: BinaryOp, right: Ast) -> Ast {
    Ast::Binary { left: Box::new(left), operator, right: Box::new(right) }
}

fn declare(n: &str, value: Ast) -> Ast {
    Ast::VariableDecl { name: n.to_string(), is_constant: false, initializer: Box::new(value) }
}

fn declare_constant(n: &str, value: Ast) -> Ast {
    Ast::VariableDecl { name: n.to_string(), is_constant: true, initializer: Box::new(value) }
}

fn assign(n: &str, value: Ast) -> Ast {
    Ast::Assign { name: n.to_string(), value: Box::new(value) }
}

fn call(callee: &str, arguments: Vec<Ast>) -> Ast {
    Ast::Call { callee: callee.to_string(), arguments }
}

fn function(n: &str, params: Vec<&str>, body: Vec<Ast>) -> Ast {
    Ast::FunctionDecl {
        name: n.to_string(),
        params: params.into_iter().map(|p| (p.to_string(), Type::Number)).collect(),
        return_type: None,
        body,
    }
}

fn runtime_error(message: &str) -> Result<Value, LoveError> {
    Err(LoveError::Runtime(message.to_string()))
}

fn type_error(message: &str) -> Result<Value, LoveError> {
    Err(LoveError::Type(message.to_string()))
}

fn run(interpreter: &mut Interpreter, source: &str) -> Result<Value, LoveError> {
    let tokens = Lexer::new(source).tokenize()?;
    let ast = Parser::new(tokens).parse()?;
    interpreter.interpret(ast)
}

fn run_fresh(source: &str) -> Result<Value, LoveError> {
    run(&mut Interpreter::new(), source)
}

fn lookup(interpreter: &Interpreter, n: &str) -> Option<Value> {
    interpreter.environment().get(n).cloned()
}

#[test]
fn declaring_x_as_three_plus_four_binds_seven() {
    let mut interpreter = Interpreter::new();
    assert_eq!(run(&mut interpreter, "heart x match 3 cuddle 4;"), Ok(number(7.0)));
    assert_eq!(lookup(&interpreter, "x"), Some(number(7.0)));
    assert_eq!(run(&mut interpreter, "x;"), Ok(number(7.0)));
}

#[test]
fn arithmetic_on_numbers() {
    assert_eq!(run_fresh("10 breakup 4;"), Ok(number(6.0)));
    assert_eq!(run_fresh("3 kiss 4;"), Ok(number(12.0)));
    assert_eq!(run_fresh("7 split 2;"), Ok(number(3.5)));
    assert_eq!(run_fresh("1 split 3;"), Ok(number(1.0 / 3.0)));
    assert_eq!(run_fresh("1 cuddle 2 kiss 3;"), Ok(number(7.0)));
    assert_eq!(run_fresh("(1 cuddle 2) kiss 3;"), Ok(number(9.0)));
    assert_eq!(run_fresh("-3 kiss -3;"), Ok(number(9.0)));
    assert_eq!(run_fresh("9223372036854775807 cuddle 1;"), Ok(number(9223372036854775808.0)));
}

#[test]
fn division_by_zero_is_a_runtime_error() {
    assert_eq!(run_fresh("1 split 0;"), runtime_error("Cannot split by zero!"));
    assert_eq!(run_fresh("0 split 0;"), runtime_error("Cannot split by zero!"));
    assert_eq!(run_fresh("-5 split -0;"), runtime_error("Cannot split by zero!"));
    assert_eq!(run_fresh("7 split (3 breakup 3);"), runtime_error("Cannot split by zero!"));
    let mut interpreter = Interpreter::new();
    assert_eq!(
        interpreter.interpret(op(lit(number(1.0)), BinaryOp::Divide, lit(number(-0.0)))),
        runtime_error("Cannot split by zero!")
    );
    assert_eq!(
        interpreter.interpret(op(lit(number(f64::NAN)), BinaryOp::Divide, lit(number(0.0)))),
        runtime_error("Cannot split by zero!")
    );
}

#[test]
fn division_by_the_smallest_number_is_not_by_zero() {
    let mut interpreter = Interpreter::new();
    assert_eq!(
        interpreter.interpret(op(lit(number(1.0)), BinaryOp::Divide, lit(number(5e-324)))),
        Ok(number(f64::INFINITY))
    );
}

#[test]
fn ordering_of_numbers() {
    assert_eq!(run_fresh("1 envies 2;"), Ok(Value::Boolean(true)));
    assert_eq!(run_fresh("2 envies 1;"), Ok(Value::Boolean(false)));
    assert_eq!(run_fresh("2 envies 2;"), Ok(Value::Boolean(false)));
    assert_eq!(run_fresh("2 admires 1;"), Ok(Value::Boolean(true)));
    assert_eq!(run_fresh("1 admires 2;"), Ok(Value::Boolean(false)));
    assert_eq!(run_fresh("2 yearns 2;"), Ok(Value::Boolean(true)));
    assert_eq!(run_fresh("3 yearns 2;"), Ok(Value::Boolean(false)));
    assert_eq!(run_fresh("2 adores 2;"), Ok(Value::Boolean(true)));
    assert_eq!(run_fresh("1 adores 2;"), Ok(Value::Boolean(false)));
    assert_eq!(run_fresh("-1 envies 0;"), Ok(Value::Boolean(true)));
    assert_eq!(run_fresh("-1 envies -2;"), Ok(Value::Boolean(false)));
}

#[test]
fn equality_of_numbers() {
    assert_eq!(run_fresh("2 soulmate 2;"), Ok(Value::Boolean(true)));
    assert_eq!(run_fresh("2 soulmate 3;"), Ok(Value::Boolean(false)));
    assert_eq!(run_fresh("0 soulmate -0;"), Ok(Value::Boolean(true)));
    assert_eq!(run_fresh("1 cuddle 1 soulmate 2;"), Ok(Value::Boolean(true)));
    let mut interpreter = Interpreter::new();
    assert_eq!(
        interpreter.interpret(op(lit(number(f64::NAN)), BinaryOp::Equal, lit(number(f64::NAN)))),
        Ok(Value::Boolean(false))
    );
    assert_eq!(
        interpreter.interpret(op(lit(number(0.0)), BinaryOp::Equal, lit(number(-0.0)))),
        Ok(Value::Boolean(true))
    );
}

#[test]
fn equality_of_other_values_has_no_rule() {
    assert_eq!(run_fresh("\"a\" soulmate \"a\";"), runtime_error("Invalid operation"));
    assert_eq!(run_fresh("yes soulmate yes;"), runtime_error("Invalid operation"));
    assert_eq!(run_fresh("1 soulmate \"1\";"), runtime_error("Invalid operation"));
}

#[test]
fn texts_are_joined_by_plus() {
    assert_eq!(run_fresh("\"Hello \" cuddle \"Love!\";"), Ok(text("Hello Love!")));
    assert_eq!(run_fresh("\"\" cuddle \"\";"), Ok(text("")));
    assert_eq!(run_fresh("\"a\" cuddle \"b\" cuddle \"c\";"), Ok(text("abc")));
}

#[test]
fn adding_a_number_and_a_text_is_a_type_error() {
    assert_eq!(run_fresh("1 cuddle \"a\";"), type_error("Expected number, but found text"));
    assert_eq!(run_fresh("\"a\" cuddle 1;"), type_error("Expected number, but found text"));
}

#[test]
fn arithmetic_on_other_types_is_a_type_error() {
    assert_eq!(run_fresh("\"a\" breakup \"b\";"), type_error("Expected number, but found text"));
    assert_eq!(run_fresh("yes kiss 2;"), type_error("Expected number, but found feeling"));
    assert_eq!(run_fresh("2 split no;"), type_error("Expected number, but found feeling"));
    assert_eq!(run_fresh("yes envies 2;"), type_error("Expected number, but found feeling"));
    assert_eq!(run_fresh("2 adores \"x\";"), type_error("Expected number, but found text"));
    assert_eq!(
        run_fresh("devotion f() { } f cuddle 1;"),
        type_error("Expected number, but found devotion")
    );
    assert_eq!(
        run_fresh("devotion f() { } yes cuddle f;"),
        type_error("Expected number, but found feeling")
    );
}

#[test]
fn the_null_value_counts_as_a_number_and_has_no_arithmetic() {
    let mut interpreter = Interpreter::new();
    assert_eq!(
        interpreter.interpret(op(lit(Value::Null), BinaryOp::Add, lit(number(1.0)))),
        runtime_error("Invalid operation")
    );
    assert_eq!(
        interpreter.interpret(op(lit(number(1.0)), BinaryOp::Divide, lit(Value::Null))),
        runtime_error("Invalid operation")
    );
    assert_eq!(
        interpreter.interpret(op(lit(Value::Null), BinaryOp::Less, lit(Value::Null))),
        runtime_error("Invalid comparison")
    );
    assert_eq!(
        interpreter.interpret(op(lit(Value::Null), BinaryOp::Add, lit(text("a")))),
        type_error("Expected number, but found text")
    );
}

#[test]
fn operators_without_a_rule() {
    assert_eq!(run_fresh("1 heartbreak 2;"), runtime_error("Operation not implemented"));
    assert_eq!(run_fresh("yes and no;"), runtime_error("Operation not implemented"));
    assert_eq!(run_fresh("yes or no;"), runtime_error("Operation not implemented"));
    let mut interpreter = Interpreter::new();
    assert_eq!(
        interpreter.interpret(op(lit(number(1.0)), BinaryOp::Not, lit(number(1.0)))),
        runtime_error("Operation not implemented")
    );
}

#[test]
fn nodes_without_a_rule() {
    assert_eq!(run_fresh("not yes;"), runtime_error("Not implemented"));
    assert_eq!(run_fresh("dating (no) { }"), runtime_error("Not implemented"));
}

#[test]
fn value_types() {
    assert_eq!(number(1.0).get_type(), Type::Number);
    assert_eq!(text("a").get_type(), Type::Text);
    assert_eq!(Value::Boolean(true).get_type(), Type::Boolean);
    assert_eq!(
        Value::Function { name: "f".to_string(), params: vec![], body: vec![] }.get_type(),
        Type::Function
    );
    assert_eq!(Value::Null.get_type(), Type::Number);
}

#[test]
fn names_of_types_and_values() {
    assert_eq!(Type::Number.to_string(), "number");
    assert_eq!(Type::Text.to_string(), "text");
    assert_eq!(Type::Boolean.to_string(), "feeling");
    assert_eq!(Type::Function.to_string(), "devotion");
    assert_eq!(number(1.0).to_string(), "number");
    assert_eq!(text("a").to_string(), "text");
    assert_eq!(Value::Boolean(false).to_string(), "feeling");
    assert_eq!(
        Value::Function { name: "f".to_string(), params: vec![], body: vec![] }.to_string(),
        "devotion"
    );
    assert_eq!(Value::Null.to_string(), "lonely");
}

#[test]
fn a_program_yields_its_last_value() {
    assert_eq!(run_fresh(""), Ok(Value::Null));
    assert_eq!(run_fresh("1; 2; 3;"), Ok(number(3.0)));
    assert_eq!(run_fresh("1; whisper 2;"), Ok(Value::Null));
}

#[test]
fn the_first_error_ends_the_program() {
    let mut interpreter = Interpreter::new();
    assert_eq!(
        run(&mut interpreter, "heart a match 1; b; heart c match 3;"),
        runtime_error("Undefined variable 'b'.")
    );
    assert_eq!(lookup(&interpreter, "a"), Some(number(1.0)));
    assert_eq!(lookup(&interpreter, "c"), None);
}

#[test]
fn undefined_variable_is_a_runtime_error() {
    assert_eq!(run_fresh("x;"), runtime_error("Undefined variable 'x'."));
    assert_eq!(run_fresh("x cuddle 1;"), runtime_error("Undefined variable 'x'."));
}

#[test]
fn assignment_needs_a_declared_name() {
    let mut interpreter = Interpreter::new();
    assert_eq!(run(&mut interpreter, "x match 1;"), runtime_error("Undefined variable 'x'."));
    assert_eq!(lookup(&interpreter, "x"), None);
    assert_eq!(run(&mut interpreter, "heart x match 1;"), Ok(number(1.0)));
    assert_eq!(run(&mut interpreter, "x match 2;"), Ok(number(2.0)));
    assert_eq!(lookup(&interpreter, "x"), Some(number(2.0)));
}

#[test]
fn constants_can_be_reassigned_and_redeclared() {
    let mut interpreter = Interpreter::new();
    assert_eq!(run(&mut interpreter, "forever LOVE match 100;"), Ok(number(100.0)));
    assert_eq!(run(&mut interpreter, "LOVE match 1;"), Ok(number(1.0)));
    assert_eq!(lookup(&interpreter, "LOVE"), Some(number(1.0)));
    assert_eq!(run(&mut interpreter, "forever LOVE match \"always\";"), Ok(text("always")));
    assert_eq!(lookup(&interpreter, "LOVE"), Some(text("always")));
    let mut direct = Interpreter::new();
    assert_eq!(
        direct.interpret(declare_constant("k", lit(number(1.0)))),
        Ok(number(1.0))
    );
    assert_eq!(direct.interpret(assign("k", lit(number(2.0)))), Ok(number(2.0)));
    assert_eq!(lookup(&direct, "k"), Some(number(2.0)));
}

#[test]
fn the_value_is_evaluated_before_the_name_is_looked_up() {
    let mut interpreter = Interpreter::new();
    assert_eq!(
        run(&mut interpreter, "x match (heart x match 1);"),
        Err(LoveError::Parser("Expected expression".to_string()))
    );
    assert_eq!(
        interpreter.interpret(assign("x", declare("x", lit(number(1.0))))),
        Ok(number(1.0))
    );
    assert_eq!(lookup(&interpreter, "x"), Some(number(1.0)));
}

#[test]
fn bindings_accumulate_across_fragments() {
    let mut interpreter = Interpreter::new();
    assert_eq!(run(&mut interpreter, "heart a match 2;"), Ok(number(2.0)));
    assert_eq!(run(&mut interpreter, "heart b match a kiss 3;"), Ok(number(6.0)));
    assert_eq!(run(&mut interpreter, "a cuddle b;"), Ok(number(8.0)));
}

#[test]
fn a_block_runs_in_an_empty_table_and_restores_the_outer_one() {
    let mut interpreter = Interpreter::new();
    assert_eq!(run(&mut interpreter, "heart x match 1;"), Ok(number(1.0)));
    assert_eq!(run(&mut interpreter, "{ heart x match 2; x; }"), Ok(number(2.0)));
    assert_eq!(lookup(&interpreter, "x"), Some(number(1.0)));
    assert_eq!(run(&mut interpreter, "{ heart y match 5; }"), Ok(number(5.0)));
    assert_eq!(lookup(&interpreter, "y"), None);
    assert_eq!(run(&mut interpreter, "{ x; }"), runtime_error("Undefined variable 'x'."));
    assert_eq!(lookup(&interpreter, "x"), Some(number(1.0)));
    assert_eq!(run(&mut interpreter, "{ x match 3; }"), runtime_error("Undefined variable 'x'."));
    assert_eq!(lookup(&interpreter, "x"), Some(number(1.0)));
    assert_eq!(run(&mut interpreter, "{ }"), Ok(Value::Null));
    assert_eq!(run(&mut interpreter, "x;"), Ok(number(1.0)));
}

#[test]
fn a_failing_block_still_restores_the_outer_table() {
    let mut interpreter = Interpreter::new();
    assert_eq!(run(&mut interpreter, "heart x match 1;"), Ok(number(1.0)));
    assert_eq!(
        run(&mut interpreter, "{ heart x match 2; heart z match 3; 1 split 0; }"),
        runtime_error("Cannot split by zero!")
    );
    assert_eq!(lookup(&interpreter, "x"), Some(number(1.0)));
    assert_eq!(lookup(&interpreter, "z"), None);
}

#[test]
fn nested_blocks_each_start_empty() {
    assert_eq!(
        run_fresh("{ heart a match 1; { a; } }"),
        runtime_error("Undefined variable 'a'.")
    );
    assert_eq!(run_fresh("{ heart a match 1; { heart a match 2; } a; }"), Ok(number(1.0)));
}

#[test]
fn if_takes_the_matching_branch_in_the_current_table() {
    let mut interpreter = Interpreter::new();
    assert_eq!(run(&mut interpreter, "heart x match 1;"), Ok(number(1.0)));
    assert_eq!(
        run(&mut interpreter, "crush (x envies 2) { x match 10; } butterflies { x match 20; }"),
        Ok(number(10.0))
    );
    assert_eq!(lookup(&interpreter, "x"), Some(number(10.0)));
    assert_eq!(
        run(&mut interpreter, "crush (x envies 2) { x match 30; } butterflies { x match 40; }"),
        Ok(number(40.0))
    );
    assert_eq!(lookup(&interpreter, "x"), Some(number(40.0)));
    assert_eq!(run(&mut interpreter, "crush (no) { 1; }"), Ok(Value::Null));
    assert_eq!(run(&mut interpreter, "crush (yes) { }"), Ok(Value::Null));
    assert_eq!(run(&mut interpreter, "crush (yes) { heart fresh match 7; }"), Ok(number(7.0)));
    assert_eq!(lookup(&interpreter, "fresh"), Some(number(7.0)));
}

#[test]
fn a_condition_must_be_a_boolean() {
    assert_eq!(
        run_fresh("crush (1) { }"),
        runtime_error("Condition must evaluate to a feeling (yes/no)")
    );
    assert_eq!(
        run_fresh("crush (\"yes\") { } butterflies { }"),
        runtime_error("Condition must evaluate to a feeling (yes/no)")
    );
    assert_eq!(run_fresh("crush (x) { }"), runtime_error("Undefined variable 'x'."));
}

#[test]
fn return_yields_its_value_and_does_not_leave_the_list() {
    assert_eq!(run_fresh("promise 5;"), Ok(number(5.0)));
    assert_eq!(run_fresh("promise;"), Ok(Value::Null));
    assert_eq!(run_fresh("promise 1; 2;"), Ok(number(2.0)));
    let mut interpreter = Interpreter::new();
    assert_eq!(
        interpreter.interpret(Ast::Program(vec![
            function(
                "f",
                vec![],
                vec![
                    Ast::ReturnStmt(Some(Box::new(lit(number(1.0))))),
                    Ast::ExpressionStmt(Box::new(lit(number(2.0)))),
                ]
            ),
            call("f", vec![]),
        ])),
        Ok(number(2.0))
    );
}

#[test]
fn printing_records_the_value_and_yields_null() {
    let mut interpreter = Interpreter::new();
    assert_eq!(run(&mut interpreter, "whisper 1 cuddle 1; whisper \"hi\";"), Ok(Value::Null));
    assert_eq!(interpreter.take_output(), vec![number(2.0), text("hi")]);
    assert_eq!(interpreter.take_output(), vec![]);
    assert_eq!(run(&mut interpreter, "whisper yes; x; whisper no;"), runtime_error("Undefined variable 'x'."));
    assert_eq!(interpreter.take_output(), vec![Value::Boolean(true)]);
    assert_eq!(run(&mut interpreter, "{ whisper 3; }"), Ok(Value::Null));
    assert_eq!(interpreter.take_output(), vec![number(3.0)]);
}

#[test]
fn declaring_a_function_binds_and_yields_it() {
    let mut interpreter = Interpreter::new();
    let expected = Value::Function {
        name: "add".to_string(),
        params: vec!["a".to_string(), "b".to_string()],
        body: vec![Ast::ReturnStmt(Some(Box::new(op(name("a"), BinaryOp::Add, name("b")))))],
    };
    assert_eq!(
        run(&mut interpreter, "devotion add(a: number, b: number) -> number { promise a cuddle b; }"),
        Ok(expected.clone())
    );
    assert_eq!(lookup(&interpreter, "add"), Some(expected));
}

#[test]
fn calling_a_function_binds_arguments_by_position() {
    let mut interpreter = Interpreter::new();
    run(&mut interpreter, "devotion sub(a: number, b: number) { promise a breakup b; }").unwrap();
    assert_eq!(
        interpreter.interpret(call("sub", vec![lit(number(10.0)), lit(number(4.0))])),
        Ok(number(6.0))
    );
    run(&mut interpreter, "heart x match 5;").unwrap();
    assert_eq!(
        interpreter.interpret(call("sub", vec![name("x"), op(name("x"), BinaryOp::Add, name("x"))])),
        Ok(number(-5.0))
    );
}

#[test]
fn arity_mismatch_is_a_runtime_error() {
    let mut interpreter = Interpreter::new();
    run(&mut interpreter, "devotion add(a: number, b: number) { promise a cuddle b; }").unwrap();
    assert_eq!(
        interpreter.interpret(call("add", vec![lit(number(1.0))])),
        runtime_error("Expected 2 arguments but got 1.")
    );
    assert_eq!(
        interpreter.interpret(call(
            "add",
            vec![lit(number(1.0)), lit(number(2.0)), lit(number(3.0))]
        )),
        runtime_error("Expected 2 arguments but got 3.")
    );
    assert_eq!(
        interpreter.interpret(call("add", vec![])),
        runtime_error("Expected 2 arguments but got 0.")
    );
    assert_eq!(
        interpreter.interpret(call("add", vec![lit(number(1.0)), lit(number(2.0))])),
        Ok(number(3.0))
    );
}

#[test]
fn arguments_are_not_evaluated_on_arity_mismatch() {
    let mut interpreter = Interpreter::new();
    run(&mut interpreter, "devotion one(a: number) { a; } heart x match 1;").unwrap();
    assert_eq!(
        interpreter.interpret(call(
            "one",
            vec![assign("x", lit(number(2.0))), lit(number(3.0))]
        )),
        runtime_error("Expected 1 arguments but got 2.")
    );
    assert_eq!(lookup(&interpreter, "x"), Some(number(1.0)));
    assert_eq!(interpreter.take_output(), vec![]);
}

#[test]
fn calling_what_is_not_a_function() {
    let mut interpreter = Interpreter::new();
    assert_eq!(
        interpreter.interpret(call("missing", vec![])),
        runtime_error("Undefined function 'missing'")
    );
    run(&mut interpreter, "heart x match 1;").unwrap();
    assert_eq!(interpreter.interpret(call("x", vec![])), runtime_error("'x' is not a function"));
}

#[test]
fn a_function_body_sees_only_its_parameters() {
    let mut interpreter = Interpreter::new();
    run(&mut interpreter, "heart outer match 1; devotion peek() { outer; }").unwrap();
    assert_eq!(
        interpreter.interpret(call("peek", vec![])),
        runtime_error("Undefined variable 'outer'.")
    );
    assert_eq!(lookup(&interpreter, "outer"), Some(number(1.0)));
    run(&mut interpreter, "devotion shadow(outer: number) { outer match outer kiss 2; }").unwrap();
    assert_eq!(interpreter.interpret(call("shadow", vec![lit(number(21.0))])), Ok(number(42.0)));
    assert_eq!(lookup(&interpreter, "outer"), Some(number(1.0)));
}

#[test]
fn arguments_are_evaluated_in_the_callers_table_in_order() {
    let mut interpreter = Interpreter::new();
    run(&mut interpreter, "heart n match 1; devotion pair(a: number, b: number) { a kiss 10 cuddle b; }")
        .unwrap();
    assert_eq!(
        interpreter.interpret(call(
            "pair",
            vec![assign("n", op(name("n"), BinaryOp::Add, lit(number(1.0)))), name("n")]
        )),
        Ok(number(22.0))
    );
    assert_eq!(lookup(&interpreter, "n"), Some(number(2.0)));
}

#[test]
fn a_failing_argument_leaves_what_earlier_arguments_did() {
    let mut interpreter = Interpreter::new();
    run(&mut interpreter, "heart n match 1; devotion pair(a: number, b: number) { a; }").unwrap();
    assert_eq!(
        interpreter.interpret(call("pair", vec![assign("n", lit(number(5.0))), name("nothing")])),
        runtime_error("Undefined variable 'nothing'.")
    );
    assert_eq!(lookup(&interpreter, "n"), Some(number(5.0)));
}

#[test]
fn a_failing_body_still_restores_the_callers_table() {
    let mut interpreter = Interpreter::new();
    run(&mut interpreter, "heart x match 1; devotion bad(x: number) { x split 0; }").unwrap();
    assert_eq!(
        interpreter.interpret(call("bad", vec![lit(number(9.0))])),
        runtime_error("Cannot split by zero!")
    );
    assert_eq!(lookup(&interpreter, "x"), Some(number(1.0)));
    assert!(lookup(&interpreter, "bad").is_some());
}

#[test]
fn an_empty_body_yields_null() {
    let mut interpreter = Interpreter::new();
    run(&mut interpreter, "devotion nothing() { }").unwrap();
    assert_eq!(interpreter.interpret(call("nothing", vec![])), Ok(Value::Null));
}

#[test]
fn duplicate_parameters_keep_the_last_argument() {
    let mut interpreter = Interpreter::new();
    interpreter.interpret(function("twice", vec!["a", "a"], vec![name("a")])).unwrap();
    assert_eq!(
        interpreter.interpret(call("twice", vec![lit(number(1.0)), lit(number(2.0))])),
        Ok(number(2.0))
    );
}

#[test]
fn functions_are_values_that_can_be_passed() {
    let mut interpreter = Interpreter::new();
    interpreter
        .interpret(function("seven", vec![], vec![lit(number(7.0))]))
        .unwrap();
    interpreter
        .interpret(function("apply", vec!["g"], vec![call("g", vec![])]))
        .unwrap();
    assert_eq!(interpreter.interpret(call("apply", vec![name("seven")])), Ok(number(7.0)));
}

#[test]
fn endless_recursion_ends_with_an_error() {
    let mut interpreter = Interpreter::new();
    interpreter
        .interpret(function("f", vec!["g"], vec![call("g", vec![name("g")])]))
        .unwrap();
    assert_eq!(
        interpreter.interpret(call("f", vec![name("f")])),
        runtime_error("Too many nested calls in 'g'")
    );
    assert!(lookup(&interpreter, "f").is_some());
    assert_eq!(lookup(&interpreter, "g"), None);
}

#[test]
fn calls_can_nest_up_to_the_limit() {
    // level0 returns 0; level(k) calls level(k-1), which it gets as its argument chain
    let mut interpreter = Interpreter::new();
    interpreter.interpret(function("leaf", vec![], vec![lit(number(1.0))])).unwrap();
    let mut body = call("leaf", vec![]);
    interpreter.interpret(function("wrap", vec!["leaf"], vec![body.clone()])).unwrap();
    assert_eq!(interpreter.interpret(call("wrap", vec![name("leaf")])), Ok(number(1.0)));
    // a chain of blocks does not count as nesting of calls
    for _ in 0..(CALL_DEPTH_LIMIT + 10) {
        body = Ast::Block(vec![body]);
    }
    assert_eq!(
        interpreter.interpret(body),
        runtime_error("Undefined function 'leaf'")
    );
}

#[test]
fn the_environment_can_be_used_alone() {
    let mut environment = Environment::new();
    assert_eq!(environment.get("x"), None);
    assert_eq!(
        environment.assign("x", number(1.0)),
        Err(LoveError::Runtime("Undefined variable 'x'.".to_string()))
    );
    assert_eq!(environment.get("x"), None);
    environment.define("x".to_string(), number(1.0));
    assert_eq!(environment.get("x"), Some(&number(1.0)));
    environment.define("x".to_string(), text("again"));
    assert_eq!(environment.get("x"), Some(&text("again")));
    assert_eq!(environment.assign("x", Value::Null), Ok(()));
    assert_eq!(environment.get("x"), Some(&Value::Null));
    assert_eq!(environment.get("y"), None);
}

#[test]
fn grouping_and_expression_statements_pass_the_value_through() {
    let mut interpreter = Interpreter::new();
    assert_eq!(
        interpreter.interpret(Ast::Grouping(Box::new(lit(text("in"))))),
        Ok(text("in"))
    );
    assert_eq!(
        interpreter.interpret(Ast::ExpressionStmt(Box::new(lit(Value::Boolean(true))))),
        Ok(Value::Boolean(true))
    );
    assert_eq!(interpreter.interpret(lit(Value::Null)), Ok(Value::Null));
}

#[test]
fn a_clone_equals_what_it_was_cloned_from() {
    let tokens = Lexer::new(
        "devotion f(a: number) -> text { crush (a envies 1) { whisper \"x\"; } butterflies { promise; } dating (no) { not a; } }",
    )
    .tokenize()
    .unwrap();
    let ast = Parser::new(tokens).parse().unwrap();
    assert_eq!(ast.clone(), ast);
    let value = Interpreter::new().interpret(ast).unwrap();
    assert_eq!(value.clone(), value);
}

#[test]
fn left_operand_is_evaluated_before_the_right() {
    let mut interpreter = Interpreter::new();
    run(&mut interpreter, "heart x match 1;").unwrap();
    assert_eq!(
        run(&mut interpreter, "(x match 5) breakup x;"),
        Ok(number(0.0))
    );
    assert_eq!(
        run(&mut interpreter, "missing cuddle (x match 9);"),
        runtime_error("Undefined variable 'missing'.")
    );
    assert_eq!(lookup(&interpreter, "x"), Some(number(5.0)));
}
