//! What holds of every program: laws of the semantics, each proved from its
//! definition.
use crate::error::ErrorView;
use crate::interpreter::semantics::{
    apply_binary, arity_mismatch, call_too_deep, condition_not_boolean, division_by_zero, eval,
    eval_arguments, eval_list, invalid_comparison, invalid_operation, not_a_function,
    not_implemented, operation_not_implemented, type_mismatch, undefined_function,
    undefined_variable, Machine, Outcome,
};
use crate::number::Double;
use crate::parser::ast::AstView;
use crate::shared_types::{BinaryOp, Type, ValueView};
use vstd::prelude::*;

verus! {

/// Dividing by zero, of either sign, is a runtime error whatever the
/// dividend: no infinity and no NaN comes out of it.
pub proof fn division_by_zero_is_an_error(a: Double, b: Double)
    requires
        b.is_zero(),
    ensures
        apply_binary(BinaryOp::Divide, ValueView::Number(a), ValueView::Number(b)) == Err::<
            ValueView,
            ErrorView,
        >(division_by_zero()),
        division_by_zero() == ErrorView::Runtime("Cannot split by zero!"@),
{
}

/// A division that gives a value had a divisor other than zero.
pub proof fn quotients_have_nonzero_divisors(left: ValueView, right: ValueView)
    requires
        apply_binary(BinaryOp::Divide, left, right) is Ok,
    ensures
        left is Number,
        right is Number,
        !right->Number_0.is_zero(),
{
}

/// A division node whose right operand evaluates to zero is a runtime error,
/// whatever its left operand evaluates to.
pub proof fn dividing_by_a_zero_operand_fails(
    left: AstView,
    right: AstView,
    st: Machine,
    depth: nat,
)
    requires
        eval(left, st, depth).result is Ok,
        eval(left, st, depth).result->Ok_0 is Number,
        eval(right, eval(left, st, depth).after, depth).result is Ok,
        eval(right, eval(left, st, depth).after, depth).result->Ok_0 is Number,
        eval(right, eval(left, st, depth).after, depth).result->Ok_0->Number_0.is_zero(),
    ensures
        eval(
            AstView::Binary {
                left: Box::new(left),
                operator: BinaryOp::Divide,
                right: Box::new(right),
            },
            st,
            depth,
        ).result == Err::<ValueView, ErrorView>(division_by_zero()),
{
}

/// Adding a number and a text, in either order, is a type error that names
/// the number type as expected and the text as found.
pub proof fn adding_number_and_text_is_a_type_error(n: Double, t: Seq<char>)
    ensures
        apply_binary(BinaryOp::Add, ValueView::Number(n), ValueView::Text(t)) == Err::<
            ValueView,
            ErrorView,
        >(type_mismatch(Type::Number, ValueView::Text(t))),
        apply_binary(BinaryOp::Add, ValueView::Text(t), ValueView::Number(n)) == Err::<
            ValueView,
            ErrorView,
        >(type_mismatch(Type::Number, ValueView::Text(t))),
        type_mismatch(Type::Number, ValueView::Text(t)) == ErrorView::Type(
            "Expected "@ + "number"@ + ", but found "@ + "text"@,
        ),
{
}

/// Arithmetic and ordering on an operand that is neither a number nor the
/// null value is a type error for the first such operand.
pub proof fn arithmetic_needs_numbers(op: BinaryOp, left: ValueView, right: ValueView)
    requires
        op != BinaryOp::Equal,
        op != BinaryOp::NotEqual,
        op != BinaryOp::And,
        op != BinaryOp::Or,
        op != BinaryOp::Not,
        !(op == BinaryOp::Add && left is Text && right is Text),
    ensures
        left.get_type() != Type::Number ==> apply_binary(op, left, right) == Err::<
            ValueView,
            ErrorView,
        >(type_mismatch(Type::Number, left)),
        left.get_type() == Type::Number && right.get_type() != Type::Number ==> apply_binary(
            op,
            left,
            right,
        ) == Err::<ValueView, ErrorView>(type_mismatch(Type::Number, right)),
{
}

/// A call with another number of arguments than the function has parameters
/// is a runtime error that gives both numbers; nothing is evaluated and the
/// state stays as it was.
pub proof fn arity_mismatch_is_an_error(
    callee: Seq<char>,
    arguments: Seq<AstView>,
    st: Machine,
    depth: nat,
)
    requires
        st.env.contains_key(callee),
        st.env[callee] is Function,
        st.env[callee]->params.len() != arguments.len(),
    ensures
        eval(AstView::Call { callee, arguments }, st, depth) == (Outcome {
            result: Err(arity_mismatch(st.env[callee]->params.len(), arguments.len())),
            after: st,
        }),
{
}

/// A block leaves the enclosing table exactly as it found it, whether the
/// block succeeds or fails: what it declares is gone with it, and a name that
/// it declares again keeps its outer value.
pub proof fn block_restores_the_table(statements: Seq<AstView>, st: Machine, depth: nat)
    ensures
        eval(AstView::Block(statements), st, depth).after.env == st.env,
{
}

/// A block sees nothing of the enclosing table: in two tables it gives the
/// same result and prints the same.
pub proof fn block_ignores_the_table(
    statements: Seq<AstView>,
    st: Machine,
    other: Machine,
    depth: nat,
)
    requires
        st.output == other.output,
    ensures
        eval(AstView::Block(statements), st, depth).result == eval(
            AstView::Block(statements),
            other,
            depth,
        ).result,
        eval(AstView::Block(statements), st, depth).after.output == eval(
            AstView::Block(statements),
            other,
            depth,
        ).after.output,
{
}

/// A block cannot read a variable of the enclosing table: reading it first
/// thing is the error of an undefined variable, whatever is bound outside.
pub proof fn block_cannot_read_outer_variable(
    name: Seq<char>,
    rest: Seq<AstView>,
    st: Machine,
    depth: nat,
)
    ensures
        eval(
            AstView::Block(seq![AstView::ExpressionStmt(Box::new(AstView::Variable(name)))] + rest),
            st,
            depth,
        ).result == Err::<ValueView, ErrorView>(undefined_variable(name)),
{
    let statements = seq![AstView::ExpressionStmt(Box::new(AstView::Variable(name)))] + rest;
    let inner = Machine { env: Map::empty(), output: st.output };
    assert(eval(AstView::Variable(name), inner, depth).result == Err::<ValueView, ErrorView>(
        undefined_variable(name),
    ));
    assert(eval(statements[0], inner, depth).result == Err::<ValueView, ErrorView>(
        undefined_variable(name),
    ));
    assert(eval_list(statements, 0, inner, depth, ValueView::Null).result == Err::<
        ValueView,
        ErrorView,
    >(undefined_variable(name)));
}

/// A call runs the body in a table of its own and puts the caller's table
/// back: after the call, the table is what evaluating the arguments left.
pub proof fn call_restores_the_table(
    callee: Seq<char>,
    arguments: Seq<AstView>,
    st: Machine,
    depth: nat,
)
    requires
        st.env.contains_key(callee),
        st.env[callee] is Function,
        st.env[callee]->params.len() == arguments.len(),
        depth > 0,
    ensures
        eval(AstView::Call { callee, arguments }, st, depth).after.env == eval_arguments(
            arguments,
            st.env[callee]->params,
            0,
            st,
            depth,
            Map::empty(),
        ).after.env,
{
}

/// Assignment never declares: where the name is unbound once the value is
/// evaluated, it is the error of an undefined variable and binds nothing;
/// where it is bound, the value is stored and returned.
pub proof fn assignment_needs_a_binding(
    name: Seq<char>,
    value: AstView,
    st: Machine,
    depth: nat,
)
    requires
        eval(value, st, depth).result is Ok,
    ensures
        ({
            let o = eval(value, st, depth);
            let r = eval(AstView::Assign { name, value: Box::new(value) }, st, depth);
            if o.after.env.contains_key(name) {
                r.result == o.result && r.after.env == o.after.env.insert(
                    name,
                    o.result->Ok_0,
                ) && r.after.output == o.after.output
            } else {
                r.result == Err::<ValueView, ErrorView>(undefined_variable(name)) && r.after
                    == o.after
            }
        }),
{
}

/// Whether a declaration says constant or not makes no difference to what it
/// means.
pub proof fn constants_are_not_enforced(
    name: Seq<char>,
    initializer: AstView,
    st: Machine,
    depth: nat,
)
    ensures
        eval(
            AstView::VariableDecl { name, is_constant: true, initializer: Box::new(initializer) },
            st,
            depth,
        ) == eval(
            AstView::VariableDecl { name, is_constant: false, initializer: Box::new(initializer) },
            st,
            depth,
        ),
{
}

/// Evaluation never unbinds a name: what is bound before a node is evaluated
/// is bound after it.
pub proof fn bindings_persist(ast: AstView, st: Machine, depth: nat, name: Seq<char>)
    requires
        st.env.contains_key(name),
    ensures
        eval(ast, st, depth).after.env.contains_key(name),
    decreases depth, ast, 0nat,
{
    match ast {
        AstView::Program(statements) => {
            list_bindings_persist(statements, 0, st, depth, ValueView::Null, name);
        },
        AstView::VariableDecl { initializer, .. } => {
            bindings_persist(*initializer, st, depth, name);
        },
        AstView::If { condition, then_branch, else_branch } => {
            bindings_persist(*condition, st, depth, name);
            let o = eval(*condition, st, depth);
            list_bindings_persist(then_branch, 0, o.after, depth, ValueView::Null, name);
            if else_branch is Some {
                list_bindings_persist(
                    else_branch->Some_0,
                    0,
                    o.after,
                    depth,
                    ValueView::Null,
                    name,
                );
            }
        },
        AstView::ExpressionStmt(inner) => {
            bindings_persist(*inner, st, depth, name);
        },
        AstView::PrintStmt(inner) => {
            bindings_persist(*inner, st, depth, name);
        },
        AstView::ReturnStmt(inner) => {
            if inner is Some {
                bindings_persist(*inner->Some_0, st, depth, name);
            }
        },
        AstView::Binary { left, right, .. } => {
            bindings_persist(*left, st, depth, name);
            bindings_persist(*right, eval(*left, st, depth).after, depth, name);
        },
        AstView::Assign { value, .. } => {
            bindings_persist(*value, st, depth, name);
        },
        AstView::Call { callee, arguments } => {
            if st.env.contains_key(callee) && st.env[callee] is Function {
                argument_bindings_persist(
                    arguments,
                    st.env[callee]->params,
                    0,
                    st,
                    depth,
                    Map::empty(),
                    name,
                );
            }
        },
        AstView::Grouping(inner) => {
            bindings_persist(*inner, st, depth, name);
        },
        _ => {},
    }
}

/// [`bindings_persist`] for a list of statements.
pub proof fn list_bindings_persist(
    statements: Seq<AstView>,
    from: int,
    st: Machine,
    depth: nat,
    last: ValueView,
    name: Seq<char>,
)
    requires
        st.env.contains_key(name),
    ensures
        eval_list(statements, from, st, depth, last).after.env.contains_key(name),
    decreases depth, statements, statements.len() - from,
{
    if 0 <= from < statements.len() {
        bindings_persist(statements[from], st, depth, name);
        let o = eval(statements[from], st, depth);
        if o.result is Ok {
            list_bindings_persist(statements, from + 1, o.after, depth, o.result->Ok_0, name);
        }
    }
}

/// [`bindings_persist`] for the arguments of a call.
pub proof fn argument_bindings_persist(
    arguments: Seq<AstView>,
    params: Seq<Seq<char>>,
    from: int,
    st: Machine,
    depth: nat,
    bound: Map<Seq<char>, ValueView>,
    name: Seq<char>,
)
    requires
        st.env.contains_key(name),
    ensures
        eval_arguments(arguments, params, from, st, depth, bound).after.env.contains_key(name),
    decreases depth, arguments, arguments.len() - from,
{
    if 0 <= from < arguments.len() {
        bindings_persist(arguments[from], st, depth, name);
        let o = eval(arguments[from], st, depth);
        if o.result is Ok {
            argument_bindings_persist(
                arguments,
                params,
                from + 1,
                o.after,
                depth,
                bound.insert(params[from], o.result->Ok_0),
                name,
            );
        }
    }
}

/// A name that was declared, constant or not, can be given a new value: the
/// assignment succeeds, returns the value and stores it.
pub proof fn declared_names_can_be_reassigned(
    name: Seq<char>,
    is_constant: bool,
    initializer: AstView,
    value: AstView,
    st: Machine,
    depth: nat,
)
    requires
        eval(
            AstView::VariableDecl { name, is_constant, initializer: Box::new(initializer) },
            st,
            depth,
        ).result is Ok,
        eval(
            value,
            eval(
                AstView::VariableDecl { name, is_constant, initializer: Box::new(initializer) },
                st,
                depth,
            ).after,
            depth,
        ).result is Ok,
    ensures
        ({
            let declared = eval(
                AstView::VariableDecl { name, is_constant, initializer: Box::new(initializer) },
                st,
                depth,
            );
            let v = eval(value, declared.after, depth);
            let r = eval(AstView::Assign { name, value: Box::new(value) }, declared.after, depth);
            r.result == v.result && r.after.env == v.after.env.insert(name, v.result->Ok_0)
        }),
{
    let declared = eval(
        AstView::VariableDecl { name, is_constant, initializer: Box::new(initializer) },
        st,
        depth,
    );
    bindings_persist(value, declared.after, depth, name);
}

/// Whether `whole` starts with `start`.
pub open spec fn starts_with(whole: Seq<ValueView>, start: Seq<ValueView>) -> bool {
    start.len() <= whole.len() && whole.subrange(0, start.len() as int) == start
}

/// Evaluation only adds to what was printed: what was printed before a node
/// is evaluated is the start of what is printed after it, whether the node
/// succeeds or fails.
pub proof fn output_only_grows(ast: AstView, st: Machine, depth: nat)
    ensures
        starts_with(eval(ast, st, depth).after.output, st.output),
    decreases depth, ast, 0nat,
{
    assert(st.output.subrange(0, st.output.len() as int) =~= st.output);
    match ast {
        AstView::Program(statements) => {
            list_output_only_grows(statements, 0, st, depth, ValueView::Null);
        },
        AstView::VariableDecl { initializer, .. } => {
            output_only_grows(*initializer, st, depth);
        },
        AstView::If { condition, then_branch, else_branch } => {
            output_only_grows(*condition, st, depth);
            let o = eval(*condition, st, depth);
            list_output_only_grows(then_branch, 0, o.after, depth, ValueView::Null);
            if else_branch is Some {
                list_output_only_grows(else_branch->Some_0, 0, o.after, depth, ValueView::Null);
            }
            assert(o.after.output.subrange(0, o.after.output.len() as int) =~= o.after.output);
            starts_with_is_transitive(
                eval(ast, st, depth).after.output,
                o.after.output,
                st.output,
            );
        },
        AstView::Block(statements) => {
            list_output_only_grows(
                statements,
                0,
                Machine { env: Map::empty(), output: st.output },
                depth,
                ValueView::Null,
            );
        },
        AstView::ExpressionStmt(inner) => {
            output_only_grows(*inner, st, depth);
        },
        AstView::PrintStmt(inner) => {
            output_only_grows(*inner, st, depth);
            let o = eval(*inner, st, depth);
            if o.result is Ok {
                let v = o.result->Ok_0;
                assert(o.after.output.push(v).subrange(0, st.output.len() as int)
                    =~= o.after.output.subrange(0, st.output.len() as int));
            }
        },
        AstView::ReturnStmt(inner) => {
            if inner is Some {
                output_only_grows(*inner->Some_0, st, depth);
            }
        },
        AstView::Binary { left, right, .. } => {
            output_only_grows(*left, st, depth);
            let l = eval(*left, st, depth);
            output_only_grows(*right, l.after, depth);
            starts_with_is_transitive(
                eval(*right, l.after, depth).after.output,
                l.after.output,
                st.output,
            );
        },
        AstView::Assign { value, .. } => {
            output_only_grows(*value, st, depth);
        },
        AstView::Call { callee, arguments } => {
            if st.env.contains_key(callee) && st.env[callee] is Function {
                let params = st.env[callee]->params;
                let body = st.env[callee]->body;
                if params.len() == arguments.len() && depth > 0 {
                    argument_output_only_grows(arguments, params, 0, st, depth, Map::empty());
                    let b = eval_arguments(arguments, params, 0, st, depth, Map::empty());
                    if b.result is Ok {
                        let inner = Machine { env: b.result->Ok_0, output: b.after.output };
                        list_output_only_grows(
                            body,
                            0,
                            inner,
                            (depth - 1) as nat,
                            ValueView::Null,
                        );
                        starts_with_is_transitive(
                            eval(ast, st, depth).after.output,
                            b.after.output,
                            st.output,
                        );
                    }
                }
            }
        },
        AstView::Grouping(inner) => {
            output_only_grows(*inner, st, depth);
        },
        _ => {},
    }
}

/// A start of a start is a start.
pub proof fn starts_with_is_transitive(
    whole: Seq<ValueView>,
    middle: Seq<ValueView>,
    start: Seq<ValueView>,
)
    requires
        starts_with(whole, middle),
        starts_with(middle, start),
    ensures
        starts_with(whole, start),
{
    assert(whole.subrange(0, start.len() as int) =~= whole.subrange(
        0,
        middle.len() as int,
    ).subrange(0, start.len() as int));
}

/// [`output_only_grows`] for a list of statements.
pub proof fn list_output_only_grows(
    statements: Seq<AstView>,
    from: int,
    st: Machine,
    depth: nat,
    last: ValueView,
)
    ensures
        starts_with(eval_list(statements, from, st, depth, last).after.output, st.output),
    decreases depth, statements, statements.len() - from,
{
    assert(st.output.subrange(0, st.output.len() as int) =~= st.output);
    if 0 <= from < statements.len() {
        output_only_grows(statements[from], st, depth);
        let o = eval(statements[from], st, depth);
        if o.result is Ok {
            list_output_only_grows(statements, from + 1, o.after, depth, o.result->Ok_0);
            starts_with_is_transitive(
                eval_list(statements, from, st, depth, last).after.output,
                o.after.output,
                st.output,
            );
        }
    }
}

/// [`output_only_grows`] for the arguments of a call.
pub proof fn argument_output_only_grows(
    arguments: Seq<AstView>,
    params: Seq<Seq<char>>,
    from: int,
    st: Machine,
    depth: nat,
    bound: Map<Seq<char>, ValueView>,
)
    ensures
        starts_with(
            eval_arguments(arguments, params, from, st, depth, bound).after.output,
            st.output,
        ),
    decreases depth, arguments, arguments.len() - from,
{
    assert(st.output.subrange(0, st.output.len() as int) =~= st.output);
    if 0 <= from < arguments.len() {
        output_only_grows(arguments[from], st, depth);
        let o = eval(arguments[from], st, depth);
        if o.result is Ok {
            argument_output_only_grows(
                arguments,
                params,
                from + 1,
                o.after,
                depth,
                bound.insert(params[from], o.result->Ok_0),
            );
            starts_with_is_transitive(
                eval_arguments(arguments, params, from, st, depth, bound).after.output,
                o.after.output,
                st.output,
            );
        }
    }
}

/// Whether an error says that calls were nested too deep.
pub open spec fn is_too_deep(r: Result<ValueView, ErrorView>) -> bool {
    r is Err && r->Err_0 is Runtime && r->Err_0->Runtime_0.len() > 0 && r->Err_0->Runtime_0[0]
        == 'T'
}

/// Of the errors of evaluation, only the one for calls nested too deep starts
/// with its letter.
pub proof fn only_deep_calls_are_too_deep(name: Seq<char>, a: nat, b: nat)
    ensures
        is_too_deep(Err(call_too_deep(name))),
        !is_too_deep(Err(undefined_variable(name))),
        !is_too_deep(Err(undefined_function(name))),
        !is_too_deep(Err(not_a_function(name))),
        !is_too_deep(Err(arity_mismatch(a, b))),
        !is_too_deep(Err(condition_not_boolean())),
        !is_too_deep(Err(division_by_zero())),
        !is_too_deep(Err(invalid_operation())),
        !is_too_deep(Err(invalid_comparison())),
        !is_too_deep(Err(operation_not_implemented())),
        !is_too_deep(Err(not_implemented())),
{
    reveal_strlit("Too many nested calls in '");
    reveal_strlit("Undefined variable '");
    reveal_strlit("Undefined function '");
    reveal_strlit("'");
    reveal_strlit("Expected ");
    reveal_strlit("Condition must evaluate to a feeling (yes/no)");
    reveal_strlit("Cannot split by zero!");
    reveal_strlit("Invalid operation");
    reveal_strlit("Invalid comparison");
    reveal_strlit("Operation not implemented");
    reveal_strlit("Not implemented");
}

/// A node that is evaluated without nesting calls too deep means the same
/// under any larger limit: the limit changes nothing but for the programs
/// that reach it.
pub proof fn a_larger_limit_changes_nothing(ast: AstView, st: Machine, depth: nat)
    requires
        !is_too_deep(eval(ast, st, depth).result),
    ensures
        eval(ast, st, depth + 1) == eval(ast, st, depth),
    decreases depth, ast, 0nat,
{
    match ast {
        AstView::Program(statements) => {
            list_limit_changes_nothing(statements, 0, st, depth, ValueView::Null);
        },
        AstView::VariableDecl { initializer, .. } => {
            a_larger_limit_changes_nothing(*initializer, st, depth);
        },
        AstView::If { condition, then_branch, else_branch } => {
            a_larger_limit_changes_nothing(*condition, st, depth);
            let o = eval(*condition, st, depth);
            match o.result {
                Ok(ValueView::Boolean(true)) => {
                    list_limit_changes_nothing(then_branch, 0, o.after, depth, ValueView::Null);
                },
                Ok(ValueView::Boolean(false)) => {
                    if else_branch is Some {
                        list_limit_changes_nothing(
                            else_branch->Some_0,
                            0,
                            o.after,
                            depth,
                            ValueView::Null,
                        );
                    }
                },
                _ => {},
            }
        },
        AstView::Block(statements) => {
            list_limit_changes_nothing(
                statements,
                0,
                Machine { env: Map::empty(), output: st.output },
                depth,
                ValueView::Null,
            );
        },
        AstView::ExpressionStmt(inner) => {
            a_larger_limit_changes_nothing(*inner, st, depth);
        },
        AstView::PrintStmt(inner) => {
            a_larger_limit_changes_nothing(*inner, st, depth);
        },
        AstView::ReturnStmt(inner) => {
            if inner is Some {
                a_larger_limit_changes_nothing(*inner->Some_0, st, depth);
            }
        },
        AstView::Binary { left, right, .. } => {
            a_larger_limit_changes_nothing(*left, st, depth);
            let l = eval(*left, st, depth);
            if l.result is Ok {
                a_larger_limit_changes_nothing(*right, l.after, depth);
            }
        },
        AstView::Assign { value, .. } => {
            a_larger_limit_changes_nothing(*value, st, depth);
        },
        AstView::Call { callee, arguments } => {
            if st.env.contains_key(callee) && st.env[callee] is Function {
                let params = st.env[callee]->params;
                let body = st.env[callee]->body;
                if params.len() == arguments.len() {
                    only_deep_calls_are_too_deep(callee, 0, 0);
                    if depth > 0 {
                        argument_limit_changes_nothing(
                            arguments,
                            params,
                            0,
                            st,
                            depth,
                            Map::empty(),
                        );
                        let b = eval_arguments(arguments, params, 0, st, depth, Map::empty());
                        if b.result is Ok {
                            list_limit_changes_nothing(
                                body,
                                0,
                                Machine { env: b.result->Ok_0, output: b.after.output },
                                (depth - 1) as nat,
                                ValueView::Null,
                            );
                        }
                    }
                }
            }
        },
        AstView::Grouping(inner) => {
            a_larger_limit_changes_nothing(*inner, st, depth);
        },
        _ => {},
    }
}

/// [`a_larger_limit_changes_nothing`] for a list of statements.
pub proof fn list_limit_changes_nothing(
    statements: Seq<AstView>,
    from: int,
    st: Machine,
    depth: nat,
    last: ValueView,
)
    requires
        !is_too_deep(eval_list(statements, from, st, depth, last).result),
    ensures
        eval_list(statements, from, st, depth + 1, last) == eval_list(
            statements,
            from,
            st,
            depth,
            last,
        ),
    decreases depth, statements, statements.len() - from,
{
    if 0 <= from < statements.len() {
        a_larger_limit_changes_nothing(statements[from], st, depth);
        let o = eval(statements[from], st, depth);
        if o.result is Ok {
            list_limit_changes_nothing(statements, from + 1, o.after, depth, o.result->Ok_0);
        }
    }
}

/// [`a_larger_limit_changes_nothing`] for the arguments of a call.
pub proof fn argument_limit_changes_nothing(
    arguments: Seq<AstView>,
    params: Seq<Seq<char>>,
    from: int,
    st: Machine,
    depth: nat,
    bound: Map<Seq<char>, ValueView>,
)
    requires
        eval_arguments(arguments, params, from, st, depth, bound).result is Err ==> !is_too_deep(
            Err(eval_arguments(arguments, params, from, st, depth, bound).result->Err_0),
        ),
    ensures
        eval_arguments(arguments, params, from, st, depth + 1, bound) == eval_arguments(
            arguments,
            params,
            from,
            st,
            depth,
            bound,
        ),
    decreases depth, arguments, arguments.len() - from,
{
    if 0 <= from < arguments.len() {
        a_larger_limit_changes_nothing(arguments[from], st, depth);
        let o = eval(arguments[from], st, depth);
        if o.result is Ok {
            argument_limit_changes_nothing(
                arguments,
                params,
                from + 1,
                o.after,
                depth,
                bound.insert(params[from], o.result->Ok_0),
            );
        }
    }
}

} // verus!
