//! What a program means: a definitional interpreter over the models of the
//! tree and of the values.
//!
//! Evaluation threads a [`Machine`] through the tree: the table of variables
//! and the values printed so far. Blocks and calls run in a table of their own
//! and leave the caller's table as it was, whether they succeed or fail.
use crate::error::ErrorView;
use crate::number::{
    double_difference, double_product, double_quotient, double_sum, Double,
};
use crate::parser::ast::AstView;
use crate::shared_types::{BinaryOp, Type, ValueView};
use crate::text::decimal;
use vstd::prelude::*;

verus! {

/// The state that evaluation reads and changes.
pub struct Machine {
    /// The variables in scope, by name.
    pub env: Map<Seq<char>, ValueView>,
    /// The values printed so far, oldest first.
    pub output: Seq<ValueView>,
}

/// What evaluating a node gives: its value or the first error, and the state
/// left behind.
pub struct Outcome {
    pub result: Result<ValueView, ErrorView>,
    pub after: Machine,
}

/// What evaluating the arguments of a call gives: the table that binds the
/// parameters, or the first error, and the caller's state left behind.
pub struct Binding {
    pub result: Result<Map<Seq<char>, ValueView>, ErrorView>,
    pub after: Machine,
}

/// The error for reading or assigning a name that is not bound.
pub open spec fn undefined_variable(name: Seq<char>) -> ErrorView {
    ErrorView::Runtime("Undefined variable '"@ + name + "'."@)
}

/// The error for calling a name that is not bound.
pub open spec fn undefined_function(name: Seq<char>) -> ErrorView {
    ErrorView::Runtime("Undefined function '"@ + name + "'"@)
}

/// The error for calling a name that is bound to no function.
pub open spec fn not_a_function(name: Seq<char>) -> ErrorView {
    ErrorView::Runtime("'"@ + name + "' is not a function"@)
}

/// The error for a call with another number of arguments than parameters.
pub open spec fn arity_mismatch(expected: nat, got: nat) -> ErrorView {
    ErrorView::Runtime(
        "Expected "@ + decimal(expected) + " arguments but got "@ + decimal(got) + "."@,
    )
}

/// The error for a call nested deeper than calls may be.
pub open spec fn call_too_deep(name: Seq<char>) -> ErrorView {
    ErrorView::Runtime("Too many nested calls in '"@ + name + "'"@)
}

/// The error for an operand of another type than the operator needs.
pub open spec fn type_mismatch(expected: Type, found: ValueView) -> ErrorView {
    ErrorView::Type("Expected "@ + expected.name() + ", but found "@ + found.kind_name())
}

/// The error for a condition that is no boolean.
pub open spec fn condition_not_boolean() -> ErrorView {
    ErrorView::Runtime("Condition must evaluate to a feeling (yes/no)"@)
}

/// The error for a division by zero.
pub open spec fn division_by_zero() -> ErrorView {
    ErrorView::Runtime("Cannot split by zero!"@)
}

/// The error for arithmetic or equality on operands without a rule.
pub open spec fn invalid_operation() -> ErrorView {
    ErrorView::Runtime("Invalid operation"@)
}

/// The error for ordering operands without a rule.
pub open spec fn invalid_comparison() -> ErrorView {
    ErrorView::Runtime("Invalid comparison"@)
}

/// The error for an operator without a rule.
pub open spec fn operation_not_implemented() -> ErrorView {
    ErrorView::Runtime("Operation not implemented"@)
}

/// The error for a node without a rule.
pub open spec fn not_implemented() -> ErrorView {
    ErrorView::Runtime("Not implemented"@)
}

/// The four operators of arithmetic.
pub open spec fn is_arithmetic(op: BinaryOp) -> bool {
    op == BinaryOp::Add || op == BinaryOp::Subtract || op == BinaryOp::Multiply || op
        == BinaryOp::Divide
}

/// The four operators that order two numbers.
pub open spec fn is_relational(op: BinaryOp) -> bool {
    op == BinaryOp::Less || op == BinaryOp::Greater || op == BinaryOp::LessEqual || op
        == BinaryOp::GreaterEqual
}

/// Arithmetic on two numbers. Division by a zero of either sign is an error
/// and never gives an infinity or a NaN.
pub open spec fn arithmetic(op: BinaryOp, a: Double, b: Double) -> Result<ValueView, ErrorView>
    recommends
        is_arithmetic(op),
{
    match op {
        BinaryOp::Add => Ok(ValueView::Number(Double { bits: double_sum(a.bits, b.bits) })),
        BinaryOp::Subtract => Ok(
            ValueView::Number(Double { bits: double_difference(a.bits, b.bits) }),
        ),
        BinaryOp::Multiply => Ok(
            ValueView::Number(Double { bits: double_product(a.bits, b.bits) }),
        ),
        _ => if b.is_zero() {
            Err(division_by_zero())
        } else {
            Ok(ValueView::Number(Double { bits: double_quotient(a.bits, b.bits) }))
        },
    }
}

/// The order of two numbers under a relational operator.
pub open spec fn relation(op: BinaryOp, a: Double, b: Double) -> bool
    recommends
        is_relational(op),
{
    match op {
        BinaryOp::Less => a.lt(b),
        BinaryOp::Greater => b.lt(a),
        BinaryOp::LessEqual => a.le(b),
        _ => b.le(a),
    }
}

/// The value of `left operator right`.
///
/// `+` joins two texts. Otherwise arithmetic and the relational operators
/// need two numbers: the first operand of another type is a type error.
/// `==` compares two numbers. Whatever has no rule is a runtime error.
pub open spec fn apply_binary(op: BinaryOp, left: ValueView, right: ValueView) -> Result<
    ValueView,
    ErrorView,
> {
    if op == BinaryOp::Add && left is Text && right is Text {
        Ok(ValueView::Text(left->Text_0 + right->Text_0))
    } else if is_arithmetic(op) || is_relational(op) {
        if left.get_type() != Type::Number {
            Err(type_mismatch(Type::Number, left))
        } else if right.get_type() != Type::Number {
            Err(type_mismatch(Type::Number, right))
        } else if left is Number && right is Number {
            if is_arithmetic(op) {
                arithmetic(op, left->Number_0, right->Number_0)
            } else {
                Ok(ValueView::Boolean(relation(op, left->Number_0, right->Number_0)))
            }
        } else if is_arithmetic(op) {
            Err(invalid_operation())
        } else {
            Err(invalid_comparison())
        }
    } else if op == BinaryOp::Equal {
        if left is Number && right is Number {
            Ok(ValueView::Boolean(left->Number_0.same(right->Number_0)))
        } else {
            Err(invalid_operation())
        }
    } else {
        Err(operation_not_implemented())
    }
}

/// The names of a list of parameters.
pub open spec fn parameter_names(params: Seq<(Seq<char>, Type)>) -> Seq<Seq<char>> {
    Seq::new(params.len(), |i: int| params[i].0)
}

/// The meaning of a node: its value, and the state it leaves, from the state
/// it starts in. `depth` is how many calls may still be nested.
pub open spec fn eval(ast: AstView, st: Machine, depth: nat) -> Outcome
    decreases depth, ast, 0nat,
{
    match ast {
        AstView::Program(statements) => eval_list(statements, 0, st, depth, ValueView::Null),
        AstView::VariableDecl { name, initializer, .. } => {
            let o = eval(*initializer, st, depth);
            match o.result {
                Ok(v) => Outcome {
                    result: Ok(v),
                    after: Machine { env: o.after.env.insert(name, v), output: o.after.output },
                },
                Err(_) => o,
            }
        },
        AstView::FunctionDecl { name, params, body, .. } => {
            let f = ValueView::Function { name, params: parameter_names(params), body };
            Outcome { result: Ok(f), after: Machine { env: st.env.insert(name, f), output: st.output } }
        },
        AstView::If { condition, then_branch, else_branch } => {
            let o = eval(*condition, st, depth);
            match o.result {
                Ok(ValueView::Boolean(true)) => eval_list(
                    then_branch,
                    0,
                    o.after,
                    depth,
                    ValueView::Null,
                ),
                Ok(ValueView::Boolean(false)) => match else_branch {
                    Some(statements) => eval_list(statements, 0, o.after, depth, ValueView::Null),
                    None => Outcome { result: Ok(ValueView::Null), after: o.after },
                },
                Ok(_) => Outcome { result: Err(condition_not_boolean()), after: o.after },
                Err(_) => o,
            }
        },
        AstView::Block(statements) => {
            let inner = eval_list(
                statements,
                0,
                Machine { env: Map::empty(), output: st.output },
                depth,
                ValueView::Null,
            );
            Outcome {
                result: inner.result,
                after: Machine { env: st.env, output: inner.after.output },
            }
        },
        AstView::ExpressionStmt(inner) => eval(*inner, st, depth),
        AstView::PrintStmt(inner) => {
            let o = eval(*inner, st, depth);
            match o.result {
                Ok(v) => Outcome {
                    result: Ok(ValueView::Null),
                    after: Machine { env: o.after.env, output: o.after.output.push(v) },
                },
                Err(_) => o,
            }
        },
        AstView::ReturnStmt(inner) => match inner {
            Some(e) => eval(*e, st, depth),
            None => Outcome { result: Ok(ValueView::Null), after: st },
        },
        AstView::Binary { left, operator, right } => {
            let l = eval(*left, st, depth);
            match l.result {
                Ok(a) => {
                    let r = eval(*right, l.after, depth);
                    match r.result {
                        Ok(b) => Outcome { result: apply_binary(operator, a, b), after: r.after },
                        Err(_) => r,
                    }
                },
                Err(_) => l,
            }
        },
        AstView::Assign { name, value } => {
            let o = eval(*value, st, depth);
            match o.result {
                Ok(v) => if o.after.env.contains_key(name) {
                    Outcome {
                        result: Ok(v),
                        after: Machine { env: o.after.env.insert(name, v), output: o.after.output },
                    }
                } else {
                    Outcome { result: Err(undefined_variable(name)), after: o.after }
                },
                Err(_) => o,
            }
        },
        AstView::Call { callee, arguments } => {
            if !st.env.contains_key(callee) {
                Outcome { result: Err(undefined_function(callee)), after: st }
            } else {
                match st.env[callee] {
                    ValueView::Function { params, body, .. } => {
                        if params.len() != arguments.len() {
                            Outcome {
                                result: Err(arity_mismatch(params.len(), arguments.len())),
                                after: st,
                            }
                        } else if depth == 0 {
                            Outcome { result: Err(call_too_deep(callee)), after: st }
                        } else {
                            let b = eval_arguments(arguments, params, 0, st, depth, Map::empty());
                            match b.result {
                                Ok(bound) => {
                                    let inner = eval_list(
                                        body,
                                        0,
                                        Machine { env: bound, output: b.after.output },
                                        (depth - 1) as nat,
                                        ValueView::Null,
                                    );
                                    Outcome {
                                        result: inner.result,
                                        after: Machine {
                                            env: b.after.env,
                                            output: inner.after.output,
                                        },
                                    }
                                },
                                Err(e) => Outcome { result: Err(e), after: b.after },
                            }
                        }
                    },
                    _ => Outcome { result: Err(not_a_function(callee)), after: st },
                }
            }
        },
        AstView::Variable(name) => if st.env.contains_key(name) {
            Outcome { result: Ok(st.env[name]), after: st }
        } else {
            Outcome { result: Err(undefined_variable(name)), after: st }
        },
        AstView::Literal(value) => Outcome { result: Ok(value), after: st },
        AstView::Grouping(inner) => eval(*inner, st, depth),
        AstView::While { .. } => Outcome { result: Err(not_implemented()), after: st },
        AstView::Unary { .. } => Outcome { result: Err(not_implemented()), after: st },
    }
}

/// The meaning of the statements from index `from` on, run in order: the value
/// of the last one, or `last` where none is left, or the first error.
pub open spec fn eval_list(
    statements: Seq<AstView>,
    from: int,
    st: Machine,
    depth: nat,
    last: ValueView,
) -> Outcome
    decreases depth, statements, statements.len() - from,
{
    if 0 <= from < statements.len() {
        let o = eval(statements[from], st, depth);
        match o.result {
            Ok(v) => eval_list(statements, from + 1, o.after, depth, v),
            Err(_) => o,
        }
    } else {
        Outcome { result: Ok(last), after: st }
    }
}

/// The meaning of the arguments from index `from` on: each is evaluated in the
/// caller's state, in order, and bound to the parameter at its place in the
/// table `bound`.
pub open spec fn eval_arguments(
    arguments: Seq<AstView>,
    params: Seq<Seq<char>>,
    from: int,
    st: Machine,
    depth: nat,
    bound: Map<Seq<char>, ValueView>,
) -> Binding
    decreases depth, arguments, arguments.len() - from,
{
    if 0 <= from < arguments.len() {
        let o = eval(arguments[from], st, depth);
        match o.result {
            Ok(v) => eval_arguments(
                arguments,
                params,
                from + 1,
                o.after,
                depth,
                bound.insert(params[from], v),
            ),
            Err(e) => Binding { result: Err(e), after: o.after },
        }
    } else {
        Binding { result: Ok(bound), after: st }
    }
}

} // verus!
