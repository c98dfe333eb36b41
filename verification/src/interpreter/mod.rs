//! The evaluator and its table of variables.
use crate::error::{ErrorView, LoveError};
use crate::parser::ast::{clone_list, view_of_list, view_of_params, Ast, AstView};
use crate::shared_types::{clone_value, view_of_names, BinaryOp, Type, Value, ValueView};
use crate::text::push_decimal;
use vstd::hash_map::StringHashMap;
use vstd::prelude::*;

pub mod laws;
pub mod semantics;

use semantics::Machine;

verus! {

/// How many calls may be nested inside one another.
pub const CALL_DEPTH_LIMIT: usize = 100;

/// The table of variables: one flat mapping from names to values.
pub struct Environment {
    values: StringHashMap<Value>,
}

impl View for Environment {
    type V = Map<Seq<char>, ValueView>;

    closed spec fn view(&self) -> Map<Seq<char>, ValueView> {
        self.values@.map_values(|v: Value| v@)
    }
}

impl Environment {
    /// The empty table.
    pub fn new() -> (r: Self)
        ensures
            r@ == Map::<Seq<char>, ValueView>::empty(),
    {
        let r = Environment { values: StringHashMap::new() };
        r
    }

    /// Binds `name` to `value`, whether or not it was bound before.
    pub fn define(&mut self, name: String, value: Value)
        ensures
            final(self)@ == old(self)@.insert(name@, value@),
    {
        self.values.insert(name, value);
    }

    /// The value bound to `name`, if any.
    pub fn get(&self, name: &str) -> (r: Option<&Value>)
        ensures
            match r {
                Some(v) => self@.contains_key(name@) && v@ == self@[name@],
                None => !self@.contains_key(name@),
            },
    {
        self.values.get(name)
    }

    /// Gives `name` a new value. A name that is not bound stays unbound and
    /// is reported.
    pub fn assign(&mut self, name: &str, value: Value) -> (r: Result<(), LoveError>)
        ensures
            old(self)@.contains_key(name@) ==> r is Ok && final(self)@ == old(self)@.insert(
                name@,
                value@,
            ),
            !old(self)@.contains_key(name@) ==> r is Err && r->Err_0@
                == semantics::undefined_variable(name@) && final(self)@ == old(self)@,
    {
        if self.values.contains_key(name) {
            self.values.insert(name.to_owned(), value);
            Ok(())
        } else {
            Err(undefined_variable_error(name))
        }
    }
}

/// The model of a result of evaluation.
pub open spec fn result_view(r: Result<Value, LoveError>) -> Result<ValueView, ErrorView> {
    match r {
        Ok(v) => Ok(v@),
        Err(e) => Err(e@),
    }
}

/// The views of a list of values.
pub open spec fn view_of_values(values: Seq<Value>) -> Seq<ValueView> {
    Seq::new(values.len(), |i: int| values[i]@)
}

fn undefined_variable_error(name: &str) -> (e: LoveError)
    ensures
        e@ == semantics::undefined_variable(name@),
{
    let mut m = "Undefined variable '".to_owned();
    m.append(name);
    m.append("'.");
    LoveError::Runtime(m)
}

fn undefined_function_error(name: &str) -> (e: LoveError)
    ensures
        e@ == semantics::undefined_function(name@),
{
    let mut m = "Undefined function '".to_owned();
    m.append(name);
    m.append("'");
    LoveError::Runtime(m)
}

fn not_a_function_error(name: &str) -> (e: LoveError)
    ensures
        e@ == semantics::not_a_function(name@),
{
    let mut m = "'".to_owned();
    m.append(name);
    m.append("' is not a function");
    LoveError::Runtime(m)
}

fn call_too_deep_error(name: &str) -> (e: LoveError)
    ensures
        e@ == semantics::call_too_deep(name@),
{
    let mut m = "Too many nested calls in '".to_owned();
    m.append(name);
    m.append("'");
    LoveError::Runtime(m)
}

fn arity_mismatch_error(expected: usize, got: usize) -> (e: LoveError)
    ensures
        e@ == semantics::arity_mismatch(expected as nat, got as nat),
{
    let mut m = "Expected ".to_owned();
    push_decimal(&mut m, expected as u64);
    m.append(" arguments but got ");
    push_decimal(&mut m, got as u64);
    m.append(".");
    LoveError::Runtime(m)
}

fn type_mismatch_error(expected: Type, found: &Value) -> (e: LoveError)
    ensures
        e@ == semantics::type_mismatch(expected, found@),
{
    let mut m = "Expected ".to_owned();
    let expected_name = expected.to_string();
    m.append(expected_name.as_str());
    m.append(", but found ");
    let found_name = found.to_string();
    m.append(found_name.as_str());
    LoveError::Type(m)
}

/// The evaluator. It owns the one table of variables that is live, and keeps
/// what the program printed until it is taken.
pub struct Interpreter {
    environment: Environment,
    output: Vec<Value>,
}

impl View for Interpreter {
    type V = Machine;

    closed spec fn view(&self) -> Machine {
        Machine { env: self.environment@, output: view_of_values(self.output@) }
    }
}

impl Interpreter {
    /// An evaluator with no variable bound and nothing printed.
    pub fn new() -> (r: Self)
        ensures
            r@ == (Machine { env: Map::empty(), output: Seq::empty() }),
    {
        let r = Interpreter { environment: Environment::new(), output: Vec::new() };
        proof {
            assert(view_of_values(r.output@) =~= Seq::<ValueView>::empty());
        }
        r
    }

    /// The table of variables.
    pub fn environment(&self) -> (r: &Environment)
        ensures
            r@ == self@.env,
    {
        &self.environment
    }

    /// Hands out what was printed since the last call, oldest first, and
    /// forgets it.
    pub fn take_output(&mut self) -> (r: Vec<Value>)
        ensures
            view_of_values(r@) == old(self)@.output,
            final(self)@ == (Machine { env: old(self)@.env, output: Seq::empty() }),
    {
        let mut taken: Vec<Value> = Vec::new();
        core::mem::swap(&mut self.output, &mut taken);
        proof {
            assert(view_of_values(self.output@) =~= Seq::<ValueView>::empty());
        }
        taken
    }

    /// Evaluates a program or a fragment of one against the table of
    /// variables, which keeps what the fragment bound at its top level.
    pub fn interpret(&mut self, ast: Ast) -> (r: Result<Value, LoveError>)
        ensures
            result_view(r) == semantics::eval(ast@, old(self)@, CALL_DEPTH_LIMIT as nat).result,
            final(self)@ == semantics::eval(ast@, old(self)@, CALL_DEPTH_LIMIT as nat).after,
    {
        self.eval(&ast, CALL_DEPTH_LIMIT)
    }

    /// Evaluates a node, with `depth` nested calls still allowed.
    fn eval(&mut self, ast: &Ast, depth: usize) -> (r: Result<Value, LoveError>)
        ensures
            result_view(r) == semantics::eval(ast@, old(self)@, depth as nat).result,
            final(self)@ == semantics::eval(ast@, old(self)@, depth as nat).after,
        decreases depth, ast,
    {
        match ast {
            Ast::Program(statements) => self.eval_list(statements, depth),
            Ast::FunctionDecl { name, params, body, .. } => {
                let function = Value::Function {
                    name: name.clone(),
                    params: names_of(params),
                    body: clone_list(body),
                };
                self.environment.define(name.clone(), clone_value(&function));
                Ok(function)
            },
            Ast::Call { callee, arguments } => self.eval_call(callee, arguments, depth),
            Ast::ReturnStmt(value) => match value {
                Some(expr) => self.eval(expr, depth),
                None => Ok(Value::Null),
            },
            Ast::VariableDecl { name, initializer, .. } => {
                match self.eval(initializer, depth) {
                    Ok(value) => {
                        self.environment.define(name.clone(), clone_value(&value));
                        Ok(value)
                    },
                    Err(e) => Err(e),
                }
            },
            Ast::If { condition, then_branch, else_branch } => {
                match self.eval(condition, depth) {
                    Ok(Value::Boolean(true)) => self.eval_list(then_branch, depth),
                    Ok(Value::Boolean(false)) => match else_branch {
                        Some(statements) => self.eval_list(statements, depth),
                        None => Ok(Value::Null),
                    },
                    Ok(_) => Err(
                        LoveError::Runtime(
                            "Condition must evaluate to a feeling (yes/no)".to_owned(),
                        ),
                    ),
                    Err(e) => Err(e),
                }
            },
            Ast::Binary { left, operator, right } => {
                match self.eval(left, depth) {
                    Ok(left_value) => match self.eval(right, depth) {
                        Ok(right_value) => self.apply_binary(*operator, &left_value, &right_value),
                        Err(e) => Err(e),
                    },
                    Err(e) => Err(e),
                }
            },
            Ast::PrintStmt(expr) => {
                match self.eval(expr, depth) {
                    Ok(value) => {
                        let ghost before = self.output@;
                        let ghost printed = value@;
                        self.output.push(value);
                        proof {
                            assert(view_of_values(self.output@) =~= view_of_values(before).push(
                                printed,
                            ));
                        }
                        Ok(Value::Null)
                    },
                    Err(e) => Err(e),
                }
            },
            Ast::Literal(value) => Ok(clone_value(value)),
            Ast::Variable(name) => match self.environment.get(name.as_str()) {
                Some(value) => Ok(clone_value(value)),
                None => Err(undefined_variable_error(name.as_str())),
            },
            Ast::Assign { name, value } => {
                match self.eval(value, depth) {
                    Ok(evaluated) => {
                        match self.environment.assign(name.as_str(), clone_value(&evaluated)) {
                            Ok(()) => Ok(evaluated),
                            Err(e) => Err(e),
                        }
                    },
                    Err(e) => Err(e),
                }
            },
            Ast::ExpressionStmt(expr) => self.eval(expr, depth),
            Ast::Grouping(expr) => self.eval(expr, depth),
            Ast::Block(statements) => {
                let mut scope = Environment::new();
                core::mem::swap(&mut self.environment, &mut scope);
                let r = self.eval_list(statements, depth);
                self.environment = scope;
                r
            },
            _ => Err(LoveError::Runtime("Not implemented".to_owned())),
        }
    }

    /// Runs the statements in order and gives the value of the last one, or
    /// the null value where there is none. The first error ends the run.
    #[verifier::loop_isolation(false)]
    fn eval_list(&mut self, statements: &Vec<Ast>, depth: usize) -> (r: Result<Value, LoveError>)
        ensures
            result_view(r) == semantics::eval_list(
                view_of_list(statements@),
                0,
                old(self)@,
                depth as nat,
                ValueView::Null,
            ).result,
            final(self)@ == semantics::eval_list(
                view_of_list(statements@),
                0,
                old(self)@,
                depth as nat,
                ValueView::Null,
            ).after,
        decreases depth, statements,
    {
        let ghost whole = semantics::eval_list(
            view_of_list(statements@),
            0,
            self@,
            depth as nat,
            ValueView::Null,
        );
        let mut last = Value::Null;
        let mut i: usize = 0;
        while i < statements.len()
            invariant
                i <= statements.len(),
                semantics::eval_list(
                    view_of_list(statements@),
                    i as int,
                    self@,
                    depth as nat,
                    last@,
                ) == whole,
            decreases statements.len() - i,
        {
            match self.eval(&statements[i], depth) {
                Ok(value) => {
                    last = value;
                },
                Err(e) => {
                    return Err(e);
                },
            }
            i += 1;
        }
        Ok(last)
    }

    /// Calls the function bound to `callee`: the arguments are evaluated in
    /// the caller's table, the body runs in a table that holds the parameters
    /// and nothing else, and the caller's table is put back afterwards.
    #[verifier::loop_isolation(false)]
    fn eval_call(&mut self, callee: &String, arguments: &Vec<Ast>, depth: usize) -> (r: Result<
        Value,
        LoveError,
    >)
        ensures
            result_view(r) == semantics::eval(
                AstView::Call { callee: callee@, arguments: view_of_list(arguments@) },
                old(self)@,
                depth as nat,
            ).result,
            final(self)@ == semantics::eval(
                AstView::Call { callee: callee@, arguments: view_of_list(arguments@) },
                old(self)@,
                depth as nat,
            ).after,
        decreases depth, arguments,
    {
        let function = match self.environment.get(callee.as_str()) {
            Some(value) => clone_value(value),
            None => {
                return Err(undefined_function_error(callee.as_str()));
            },
        };
        match function {
            Value::Function { params, body, .. } => {
                if params.len() != arguments.len() {
                    return Err(arity_mismatch_error(params.len(), arguments.len()));
                }
                if depth == 0 {
                    return Err(call_too_deep_error(callee.as_str()));
                }
                let ghost start = self@;
                let mut scope = Environment::new();
                let mut i: usize = 0;
                while i < arguments.len()
                    invariant
                        i <= arguments.len(),
                        params.len() == arguments.len(),
                        semantics::eval_arguments(
                            view_of_list(arguments@),
                            view_of_names(params@),
                            i as int,
                            self@,
                            depth as nat,
                            scope@,
                        ) == semantics::eval_arguments(
                            view_of_list(arguments@),
                            view_of_names(params@),
                            0,
                            start,
                            depth as nat,
                            Map::empty(),
                        ),
                    decreases arguments.len() - i,
                {
                    match self.eval(&arguments[i], depth) {
                        Ok(value) => {
                            scope.define(params[i].clone(), value);
                        },
                        Err(e) => {
                            return Err(e);
                        },
                    }
                    i += 1;
                }
                core::mem::swap(&mut self.environment, &mut scope);
                let r = self.eval_list(&body, depth - 1);
                self.environment = scope;
                r
            },
            _ => Err(not_a_function_error(callee.as_str())),
        }
    }

    /// The value of `left operator right`. Joining texts, arithmetic, ordering
    /// and equality of numbers have a rule; everything else is an error.
    pub fn apply_binary(&self, op: BinaryOp, left: &Value, right: &Value) -> (r: Result<
            Value,
            LoveError,
        >)
        ensures
            result_view(r) == semantics::apply_binary(op, left@, right@),
    {
        match op {
            BinaryOp::Add | BinaryOp::Subtract | BinaryOp::Multiply | BinaryOp::Divide => {
                if let BinaryOp::Add = op {
                    if let Value::Text(a) = left {
                        if let Value::Text(b) = right {
                            let mut joined = a.clone();
                            joined.append(b.as_str());
                            return Ok(Value::Text(joined));
                        }
                    }
                }
                match self.check_binary_operands(left, right, &op, Type::Number) {
                    Ok(()) => {},
                    Err(e) => {
                        return Err(e);
                    },
                }
                match (left, right) {
                    (Value::Number(a), Value::Number(b)) => match op {
                        BinaryOp::Add => Ok(Value::Number(a.plus(b))),
                        BinaryOp::Subtract => Ok(Value::Number(a.minus(b))),
                        BinaryOp::Multiply => Ok(Value::Number(a.times(b))),
                        _ => {
                            if b.check_zero() {
                                Err(LoveError::Runtime("Cannot split by zero!".to_owned()))
                            } else {
                                Ok(Value::Number(a.divided_by(b)))
                            }
                        },
                    },
                    _ => Err(LoveError::Runtime("Invalid operation".to_owned())),
                }
            },
            BinaryOp::Greater | BinaryOp::Less | BinaryOp::GreaterEqual | BinaryOp::LessEqual => {
                match self.check_binary_operands(left, right, &op, Type::Number) {
                    Ok(()) => {},
                    Err(e) => {
                        return Err(e);
                    },
                }
                match (left, right) {
                    (Value::Number(a), Value::Number(b)) => match op {
                        BinaryOp::Less => Ok(Value::Boolean(a.less_than(b))),
                        BinaryOp::Greater => Ok(Value::Boolean(b.less_than(a))),
                        BinaryOp::LessEqual => Ok(Value::Boolean(a.at_most(b))),
                        _ => Ok(Value::Boolean(b.at_most(a))),
                    },
                    _ => Err(LoveError::Runtime("Invalid comparison".to_owned())),
                }
            },
            BinaryOp::Equal => match (left, right) {
                (Value::Number(a), Value::Number(b)) => Ok(Value::Boolean(a.equals(b))),
                _ => Err(LoveError::Runtime("Invalid operation".to_owned())),
            },
            _ => Err(LoveError::Runtime("Operation not implemented".to_owned())),
        }
    }

    /// Whether `value` has the type `expected`; if not, the type error that says
    /// so.
    fn check_type(&self, value: &Value, expected: Type) -> (r: Result<(), LoveError>)
        ensures
            value@.get_type() == expected ==> r is Ok,
            value@.get_type() != expected ==> r is Err && r->Err_0@ == semantics::type_mismatch(
                expected,
                value@,
            ),
    {
        let actual = value.get_type();
        if actual != expected {
            Err(type_mismatch_error(expected, value))
        } else {
            Ok(())
        }
    }

    /// Whether both operands have the type `expected_type`; if not, the type
    /// error for the first that has not.
    fn check_binary_operands(
        &self,
        left: &Value,
        right: &Value,
        _operator: &BinaryOp,
        expected_type: Type,
    ) -> (r: Result<(), LoveError>)
        ensures
            left@.get_type() == expected_type && right@.get_type() == expected_type ==> r is Ok,
            left@.get_type() != expected_type ==> r is Err && r->Err_0@ == semantics::type_mismatch(
                expected_type,
                left@,
            ),
            left@.get_type() == expected_type && right@.get_type() != expected_type ==> r is Err
                && r->Err_0@ == semantics::type_mismatch(expected_type, right@),
    {
        match self.check_type(left, expected_type) {
            Ok(()) => {},
            Err(e) => {
                return Err(e);
            },
        }
        self.check_type(right, expected_type)
    }
}

/// The names of a list of parameters.
fn names_of(params: &Vec<(String, Type)>) -> (r: Vec<String>)
    ensures
        view_of_names(r@) == semantics::parameter_names(view_of_params(params@)),
{
    let mut out: Vec<String> = Vec::new();
    let mut i: usize = 0;
    while i < params.len()
        invariant
            i <= params.len(),
            out@.len() == i,
            forall|j: int| 0 <= j < i ==> out@[j]@ == params@[j].0@,
        decreases params.len() - i,
    {
        let name = params[i].0.clone();
        out.push(name);
        i += 1;
    }
    out
}

} // verus!
