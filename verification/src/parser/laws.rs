//! What holds of the grammar on every token sequence.
use crate::lexer::token::TokenView;
use crate::parser::ast::AstView;
use crate::parser::grammar::{
    assignment, binary, binary_rest, block, condition, declaration, expression,
    done, expression_statement, function_declaration, if_statement, initializer, level_rank,
    operator_at, operator_here, parameter_list, parameters, parse_type, primary,
    print_statement, program, remaining, return_statement, return_type, sequence,
    sequence_ends, statement, token_at, unary, var_declaration, while_statement,
};
use crate::parser::syntax::{
    closed_by, has_type, stands, operator_token, type_token, written, written_block,
    written_list, written_params,
};
use crate::shared_types::Type;
use vstd::prelude::*;

verus! {

/// Where a token is left, a primary expression takes at least one, whether
/// it is well formed or not.
pub proof fn primary_takes_a_token(tokens: Seq<TokenView>, pos: int)
    requires
        token_at(tokens, pos) is Some,
    ensures
        primary(tokens, pos).consumed >= 1,
{
}

/// Where a token is left, a unary expression takes at least one, whether it
/// is well formed or not.
pub proof fn unary_takes_a_token(tokens: Seq<TokenView>, pos: int)
    requires
        token_at(tokens, pos) is Some,
    ensures
        unary(tokens, pos).consumed >= 1,
{
    primary_takes_a_token(tokens, pos);
}

/// Where a token is left, an expression of any level takes at least one,
/// whether it is well formed or not.
pub proof fn binary_takes_a_token(tokens: Seq<TokenView>, pos: int, level: nat)
    requires
        token_at(tokens, pos) is Some,
    ensures
        binary(tokens, pos, level).consumed >= 1,
    decreases 6 - level,
{
    if level >= 5 {
        unary_takes_a_token(tokens, pos);
    } else {
        binary_takes_a_token(tokens, pos, level + 1);
    }
}

/// Where a token is left, an expression takes at least one, whether it is
/// well formed or not.
pub proof fn expression_takes_a_token(tokens: Seq<TokenView>, pos: int)
    requires
        token_at(tokens, pos) is Some,
    ensures
        expression(tokens, pos).consumed >= 1,
{
    binary_takes_a_token(tokens, pos, 0);
}

/// Where a token is left, a statement takes at least one, whether it is well
/// formed or not.
pub proof fn statement_takes_a_token(tokens: Seq<TokenView>, pos: int)
    requires
        token_at(tokens, pos) is Some,
    ensures
        statement(tokens, pos).consumed >= 1,
{
    reveal(print_statement);
    reveal(return_statement);
    reveal(expression_statement);
    expression_takes_a_token(tokens, pos);
    match token_at(tokens, pos) {
        Some(TokenView::Whisper) => {
        },
        Some(TokenView::Crush) => {
            assert(condition(tokens, pos, "Expected '(' after 'crush'"@).consumed >= 1);
        },
        Some(TokenView::Dating) => {
            assert(condition(tokens, pos, "Expected '(' after 'dating'"@).consumed >= 1);
            assert(while_statement(tokens, pos).consumed >= 1);
        },
        Some(TokenView::Promise) => {
            assert(return_statement(tokens, pos).consumed >= 1);
        },
        Some(TokenView::LBrace) => {
        },
        _ => {
        },
    }
}

/// Where a token is left, a declaration takes at least one, whether it is
/// well formed or not: reading declarations one after another comes to an
/// end.
pub proof fn declaration_takes_a_token(tokens: Seq<TokenView>, pos: int)
    requires
        token_at(tokens, pos) is Some,
    ensures
        declaration(tokens, pos).consumed >= 1,
{
    reveal(var_declaration);
    statement_takes_a_token(tokens, pos);
    match token_at(tokens, pos) {
        Some(TokenView::Heart) => {
        },
        Some(TokenView::Forever) => {
        },
        Some(TokenView::Devotion) => {
        },
        _ => {},
    }
}

/// The operator that a token stands for at some level is written by that
/// token.
pub proof fn operators_are_written_by_their_tokens(level: nat, token: TokenView)
    requires
        operator_at(level, token) is Some,
    ensures
        operator_token(operator_at(level, token)->Some_0) == Some(token),
{
}

/// A primary expression that is recognised is written where it was read.
pub proof fn primary_gives_what_is_written(tokens: Seq<TokenView>, pos: int)
    requires
        primary(tokens, pos).result is Ok,
    ensures
        written(primary(tokens, pos).result->Ok_0, tokens, pos) == Some(
            pos + primary(tokens, pos).consumed,
        ),
    decreases remaining(tokens, pos), 0nat, 0nat,
{
    reveal_with_fuel(written, 2);
    if token_at(tokens, pos) == Some(TokenView::LParen) {
        expression_gives_what_is_written(tokens, pos + 1);
    }
}

/// A unary expression that is recognised is written where it was read.
pub proof fn unary_gives_what_is_written(tokens: Seq<TokenView>, pos: int)
    requires
        unary(tokens, pos).result is Ok,
    ensures
        written(unary(tokens, pos).result->Ok_0, tokens, pos) == Some(
            pos + unary(tokens, pos).consumed,
        ),
    decreases remaining(tokens, pos), 1nat, 0nat,
{
    if token_at(tokens, pos) == Some(TokenView::Not) {
        unary_gives_what_is_written(tokens, pos + 1);
    } else {
        primary_gives_what_is_written(tokens, pos);
    }
}

/// An expression of any level that is recognised is written where it was
/// read.
pub proof fn binary_gives_what_is_written(tokens: Seq<TokenView>, pos: int, level: nat)
    requires
        binary(tokens, pos, level).result is Ok,
    ensures
        written(binary(tokens, pos, level).result->Ok_0, tokens, pos) == Some(
            pos + binary(tokens, pos, level).consumed,
        ),
    decreases remaining(tokens, pos), level_rank(level), 2nat,
{
    let first = if level >= 5 {
        unary(tokens, pos)
    } else {
        binary(tokens, pos, level + 1)
    };
    if level >= 5 {
        unary_gives_what_is_written(tokens, pos);
    } else {
        binary_gives_what_is_written(tokens, pos, level + 1);
    }
    binary_rest_gives_what_is_written(
        tokens,
        pos,
        pos + first.consumed,
        level,
        first.result->Ok_0,
    );
}

/// Where `left` is written from `start` up to `pos`, what the operators and
/// operands after it make of it is written from `start` on too.
pub proof fn binary_rest_gives_what_is_written(
    tokens: Seq<TokenView>,
    start: int,
    pos: int,
    level: nat,
    left: AstView,
)
    requires
        written(left, tokens, start) == Some(pos),
        binary_rest(tokens, pos, level, left).result is Ok,
    ensures
        written(binary_rest(tokens, pos, level, left).result->Ok_0, tokens, start) == Some(
            pos + binary_rest(tokens, pos, level, left).consumed,
        ),
    decreases remaining(tokens, pos), level_rank(level), 0nat,
{
    if operator_here(tokens, pos, level) is Some {
        let operator = operator_here(tokens, pos, level)->Some_0;
        operators_are_written_by_their_tokens(level, token_at(tokens, pos)->Some_0);
        let next = if level >= 5 {
            unary(tokens, pos + 1)
        } else {
            binary(tokens, pos + 1, level + 1)
        };
        if level >= 5 {
            unary_gives_what_is_written(tokens, pos + 1);
        } else {
            binary_gives_what_is_written(tokens, pos + 1, level + 1);
        }
        let joined = AstView::Binary {
            left: Box::new(left),
            operator,
            right: Box::new(next.result->Ok_0),
        };
        binary_rest_gives_what_is_written(tokens, start, pos + 1 + next.consumed, level, joined);
    }
}

/// An assignment that is recognised is written where it was read.
pub proof fn assignment_gives_what_is_written(tokens: Seq<TokenView>, pos: int)
    requires
        assignment(tokens, pos).result is Ok,
    ensures
        written(assignment(tokens, pos).result->Ok_0, tokens, pos) == Some(
            pos + assignment(tokens, pos).consumed,
        ),
    decreases remaining(tokens, pos), 14nat, 0nat,
{
    let target = binary(tokens, pos, 0);
    binary_gives_what_is_written(tokens, pos, 0);
    if token_at(tokens, pos + target.consumed) == Some(TokenView::Match) {
        assignment_gives_what_is_written(tokens, pos + target.consumed + 1);
    }
}

/// An expression that is recognised is written where it was read: the
/// parser gives no tree but one that the tokens it took write, in their
/// order.
pub proof fn expression_gives_what_is_written(tokens: Seq<TokenView>, pos: int)
    requires
        expression(tokens, pos).result is Ok,
    ensures
        written(expression(tokens, pos).result->Ok_0, tokens, pos) == Some(
            pos + expression(tokens, pos).consumed,
        ),
    decreases remaining(tokens, pos), 15nat, 0nat,
{
    assignment_gives_what_is_written(tokens, pos);
}

/// A type name that is recognised is the token that writes the type.
pub proof fn types_are_written_by_their_tokens(tokens: Seq<TokenView>, pos: int)
    requires
        parse_type(tokens, pos).result is Ok,
    ensures
        parse_type(tokens, pos).consumed == 1,
        has_type(tokens, pos),
        type_token(parse_type(tokens, pos).result->Ok_0) == token_at(tokens, pos),
{
}

/// A list with one more node at its end is written as the list, and then
/// the node.
pub proof fn written_list_goes_on(
    seen: Seq<AstView>,
    node: AstView,
    from: int,
    tokens: Seq<TokenView>,
    pos: int,
)
    requires
        0 <= from <= seen.len(),
    ensures
        written_list(seen.push(node), from, tokens, pos) == match written_list(
            seen,
            from,
            tokens,
            pos,
        ) {
            Some(p) => written(node, tokens, p),
            None => None,
        },
    decreases seen.len() - from,
{
    let longer = seen.push(node);
    if from < seen.len() {
        match written(seen[from], tokens, pos) {
            Some(p) => {
                written_list_goes_on(seen, node, from + 1, tokens, p);
            },
            None => {},
        }
    } else {
        match written(node, tokens, pos) {
            Some(p) => {
                assert(written_list(longer, from + 1, tokens, p) == Some(p));
            },
            None => {},
        }
    }
}

/// Where the declarations in `seen` are written from `start` up to `pos`,
/// the sequence that is recognised from `pos` on, with them before it, is
/// written from `start` on.
pub proof fn sequence_gives_what_is_written(
    tokens: Seq<TokenView>,
    start: int,
    pos: int,
    in_block: bool,
    seen: Seq<AstView>,
)
    requires
        written_list(seen, 0, tokens, start) == Some(pos),
        sequence(tokens, pos, in_block, seen).result is Ok,
    ensures
        written_list(sequence(tokens, pos, in_block, seen).result->Ok_0, 0, tokens, start)
            == Some(pos + sequence(tokens, pos, in_block, seen).consumed),
    decreases remaining(tokens, pos), 23nat, 0nat,
{
    if !sequence_ends(tokens, pos, in_block) {
        let item = declaration(tokens, pos);
        declaration_gives_what_is_written(tokens, pos);
        declaration_takes_a_token(tokens, pos);
        written_list_goes_on(seen, item.result->Ok_0, 0, tokens, start);
        sequence_gives_what_is_written(
            tokens,
            start,
            pos + item.consumed,
            in_block,
            seen.push(item.result->Ok_0),
        );
    }
}

/// A block that is recognised is written where it was read.
pub proof fn block_gives_what_is_written(tokens: Seq<TokenView>, pos: int)
    requires
        block(tokens, pos).result is Ok,
    ensures
        written_block(block(tokens, pos).result->Ok_0, tokens, pos) == Some(
            pos + block(tokens, pos).consumed,
        ),
    decreases remaining(tokens, pos), 20nat, 0nat,
{
    sequence_gives_what_is_written(tokens, pos + 1, pos + 1, true, Seq::empty());
}

/// The parameters each followed by a comma, from index `from` on: the place
/// after them, if the tokens from `pos` on write them so.
pub open spec fn written_with_commas(
    params: Seq<(Seq<char>, Type)>,
    from: int,
    tokens: Seq<TokenView>,
    pos: int,
) -> Option<int>
    decreases params.len() - from,
{
    if 0 <= from < params.len() {
        if written_parameter(params[from], tokens, pos) && stands(tokens, pos + 3, TokenView::Comma) {
            written_with_commas(params, from + 1, tokens, pos + 4)
        } else {
            None
        }
    } else {
        Some(pos)
    }
}

/// Whether the tokens at `pos` write the parameter: its name, `:` and its
/// type.
pub open spec fn written_parameter(
    param: (Seq<char>, Type),
    tokens: Seq<TokenView>,
    pos: int,
) -> bool {
    stands(tokens, pos, TokenView::Identifier(param.0)) && stands(tokens, pos + 1, TokenView::Colon)
        && type_token(param.1) is Some && token_at(tokens, pos + 2) == type_token(param.1)
}

/// Parameters with one more at their end, each followed by a comma, are
/// written as the parameters with their commas, and then the one with its
/// comma.
pub proof fn written_with_commas_goes_on(
    seen: Seq<(Seq<char>, Type)>,
    param: (Seq<char>, Type),
    from: int,
    tokens: Seq<TokenView>,
    pos: int,
)
    requires
        0 <= from <= seen.len(),
    ensures
        written_with_commas(seen.push(param), from, tokens, pos) == match written_with_commas(
            seen,
            from,
            tokens,
            pos,
        ) {
            Some(p) => if written_parameter(param, tokens, p) && stands(
                tokens,
                p + 3,
                TokenView::Comma,
            ) {
                Some(p + 4)
            } else {
                None
            },
            None => None,
        },
    decreases seen.len() - from,
{
    let longer = seen.push(param);
    if from < seen.len() {
        if written_parameter(seen[from], tokens, pos) && stands(tokens, pos + 3, TokenView::Comma) {
            written_with_commas_goes_on(seen, param, from + 1, tokens, pos + 4);
        }
    } else {
        if written_parameter(param, tokens, pos) && stands(tokens, pos + 3, TokenView::Comma) {
            assert(written_with_commas(longer, from + 1, tokens, pos + 4) == Some(pos + 4));
        }
    }
}

/// A list of parameters is written as all but the last with their commas,
/// and then the last without one.
pub proof fn written_params_end(
    seen: Seq<(Seq<char>, Type)>,
    param: (Seq<char>, Type),
    from: int,
    tokens: Seq<TokenView>,
    pos: int,
)
    requires
        0 <= from <= seen.len(),
    ensures
        written_params(seen.push(param), from, tokens, pos) == match written_with_commas(
            seen,
            from,
            tokens,
            pos,
        ) {
            Some(p) => if written_parameter(param, tokens, p) {
                Some(p + 3)
            } else {
                None
            },
            None => None,
        },
    decreases seen.len() - from,
{
    if from < seen.len() && written_parameter(seen[from], tokens, pos) && stands(
        tokens,
        pos + 3,
        TokenView::Comma,
    ) {
        written_params_end(seen, param, from + 1, tokens, pos + 4);
    }
}

/// Where the parameters in `seen` are written with their commas from `start`
/// up to `pos`, the parameters that are recognised from `pos` on, with them
/// before, are written from `start` on.
pub proof fn parameters_give_what_is_written(
    tokens: Seq<TokenView>,
    start: int,
    pos: int,
    seen: Seq<(Seq<char>, Type)>,
)
    requires
        written_with_commas(seen, 0, tokens, start) == Some(pos),
        parameters(tokens, pos, seen).result is Ok,
    ensures
        written_params(parameters(tokens, pos, seen).result->Ok_0, 0, tokens, start) == Some(
            pos + parameters(tokens, pos, seen).consumed,
        ),
    decreases remaining(tokens, pos),
{
    let name = token_at(tokens, pos)->Some_0->Identifier_0;
    types_are_written_by_their_tokens(tokens, pos + 2);
    let param = (name, parse_type(tokens, pos + 2).result->Ok_0);
    if token_at(tokens, pos + 3) == Some(TokenView::Comma) {
        written_with_commas_goes_on(seen, param, 0, tokens, start);
        parameters_give_what_is_written(tokens, start, pos + 4, seen.push(param));
    } else {
        written_params_end(seen, param, 0, tokens, start);
    }
}

/// The parameters of a declaration that are recognised are written where
/// they were read.
pub proof fn parameter_list_gives_what_is_written(tokens: Seq<TokenView>, pos: int)
    requires
        parameter_list(tokens, pos).result is Ok,
    ensures
        written_params(parameter_list(tokens, pos).result->Ok_0, 0, tokens, pos) == Some(
            pos + parameter_list(tokens, pos).consumed,
        ),
{
    if token_at(tokens, pos) != Some(TokenView::RParen) {
        parameters_give_what_is_written(tokens, pos, pos, Seq::empty());
    }
}

/// A declaration of a function that is recognised is written where it was
/// read.
pub proof fn function_declaration_gives_what_is_written(tokens: Seq<TokenView>, pos: int)
    requires
        0 <= pos < tokens.len(),
        token_at(tokens, pos) == Some(TokenView::Devotion),
        function_declaration(tokens, pos).result is Ok,
    ensures
        written(function_declaration(tokens, pos).result->Ok_0, tokens, pos) == Some(
            pos + function_declaration(tokens, pos).consumed,
        ),
    decreases remaining(tokens, pos), 20nat, 0nat,
{
    let name = token_at(tokens, pos + 1)->Some_0->Identifier_0;
    let params = parameter_list(tokens, pos + 3);
    let head = 4 + params.consumed;
    let declared = return_type(tokens, pos + head);
    let body = block(tokens, pos + head + declared.consumed);
    parameter_list_gives_what_is_written(tokens, pos + 3);
    block_gives_what_is_written(tokens, pos + head + declared.consumed);
    if token_at(tokens, pos + head) == Some(TokenView::Arrow) {
        types_are_written_by_their_tokens(tokens, pos + head + 1);
    }
    a_function_is_written(
        tokens,
        pos,
        name,
        params.result->Ok_0,
        pos + head - 1,
        declared.result->Ok_0,
        body.result->Ok_0,
        pos + head + declared.consumed + body.consumed,
    );
}

/// A declaration of a variable that is recognised is written where it was
/// read.
pub proof fn var_declaration_gives_what_is_written(tokens: Seq<TokenView>, pos: int)
    requires
        0 <= pos < tokens.len(),
        token_at(tokens, pos) == Some(TokenView::Heart) || token_at(tokens, pos) == Some(
            TokenView::Forever,
        ),
        var_declaration(tokens, pos).result is Ok,
    ensures
        written(var_declaration(tokens, pos).result->Ok_0, tokens, pos) == Some(
            pos + var_declaration(tokens, pos).consumed,
        ),
{
    reveal(var_declaration);
    reveal_with_fuel(written, 2);
    let typed = token_at(tokens, pos + 2) == Some(TokenView::Colon);
    if typed {
        types_are_written_by_their_tokens(tokens, pos + 3);
    }
    let p = if typed {
        pos + 4
    } else {
        pos + 2
    };
    expression_gives_what_is_written(tokens, p + 1);
}

/// An `if` is written by `crush (`, its condition, `)`, a block, and where it
/// has an `else`, `butterflies` and a block; without one, no `butterflies`
/// comes next.
pub proof fn an_if_is_written(
    tokens: Seq<TokenView>,
    pos: int,
    cond: AstView,
    cond_end: int,
    then_branch: Seq<AstView>,
    then_end: int,
    else_branch: Option<Seq<AstView>>,
    end: int,
)
    requires
        stands(tokens, pos, TokenView::Crush),
        stands(tokens, pos + 1, TokenView::LParen),
        written(cond, tokens, pos + 2) == Some(cond_end),
        stands(tokens, cond_end, TokenView::RParen),
        written_block(then_branch, tokens, cond_end + 1) == Some(then_end),
        match else_branch {
            Some(statements) => stands(tokens, then_end, TokenView::Butterflies) && written_block(
                statements,
                tokens,
                then_end + 1,
            ) == Some(end),
            None => !stands(tokens, then_end, TokenView::Butterflies) && end == then_end,
        },
    ensures
        written(
            AstView::If { condition: Box::new(cond), then_branch, else_branch },
            tokens,
            pos,
        ) == Some(end),
{
    reveal_with_fuel(written, 2);
}

/// A `while` is written by `dating (`, its condition, `)` and a block.
pub proof fn a_while_is_written(
    tokens: Seq<TokenView>,
    pos: int,
    cond: AstView,
    cond_end: int,
    body: Seq<AstView>,
    end: int,
)
    requires
        stands(tokens, pos, TokenView::Dating),
        stands(tokens, pos + 1, TokenView::LParen),
        written(cond, tokens, pos + 2) == Some(cond_end),
        stands(tokens, cond_end, TokenView::RParen),
        written_block(body, tokens, cond_end + 1) == Some(end),
    ensures
        written(AstView::While { condition: Box::new(cond), body }, tokens, pos) == Some(end),
{
    reveal_with_fuel(written, 2);
}

/// A declaration of a function is written by `devotion`, its name, `(`, its
/// parameters, `)`, where it has a return type `->` and the type, and a
/// block; without a return type, no `->` comes after the `)`.
pub proof fn a_function_is_written(
    tokens: Seq<TokenView>,
    pos: int,
    name: Seq<char>,
    params: Seq<(Seq<char>, Type)>,
    params_end: int,
    result_type: Option<Type>,
    body: Seq<AstView>,
    end: int,
)
    requires
        stands(tokens, pos, TokenView::Devotion),
        stands(tokens, pos + 1, TokenView::Identifier(name)),
        stands(tokens, pos + 2, TokenView::LParen),
        written_params(params, 0, tokens, pos + 3) == Some(params_end),
        stands(tokens, params_end, TokenView::RParen),
        match result_type {
            Some(t) => stands(tokens, params_end + 1, TokenView::Arrow) && type_token(t) is Some
                && token_at(tokens, params_end + 2) == type_token(t) && written_block(
                body,
                tokens,
                params_end + 3,
            ) == Some(end),
            None => !stands(tokens, params_end + 1, TokenView::Arrow) && written_block(
                body,
                tokens,
                params_end + 1,
            ) == Some(end),
        },
    ensures
        written(
            AstView::FunctionDecl { name, params, return_type: result_type, body },
            tokens,
            pos,
        ) == Some(end),
{
    reveal_with_fuel(written, 2);
}

/// A block as a statement is written as the block.
pub proof fn a_block_is_written(tokens: Seq<TokenView>, pos: int, statements: Seq<AstView>)
    ensures
        written(AstView::Block(statements), tokens, pos) == written_block(
            statements,
            tokens,
            pos,
        ),
{
}

/// An expression as a statement is written as the expression and `;`.
pub proof fn an_expression_statement_is_written(
    tokens: Seq<TokenView>,
    pos: int,
    inner: AstView,
)
    ensures
        written(AstView::ExpressionStmt(Box::new(inner)), tokens, pos) == closed_by(
            written(inner, tokens, pos),
            tokens,
            TokenView::Semicolon,
        ),
{
}

/// A program is written as its declarations one after another.
pub proof fn a_program_is_written(tokens: Seq<TokenView>, pos: int, statements: Seq<AstView>)
    ensures
        written(AstView::Program(statements), tokens, pos) == written_list(
            statements,
            0,
            tokens,
            pos,
        ),
{
}

/// An `if` that is recognised is written where it was read.
pub proof fn if_statement_gives_what_is_written(tokens: Seq<TokenView>, pos: int)
    requires
        token_at(tokens, pos) == Some(TokenView::Crush),
        if_statement(tokens, pos).result is Ok,
    ensures
        written(if_statement(tokens, pos).result->Ok_0, tokens, pos) == Some(
            pos + if_statement(tokens, pos).consumed,
        ),
    decreases remaining(tokens, pos), 20nat, 0nat,
{
    let c = condition(tokens, pos, "Expected '(' after 'crush'"@);
    let cond = expression(tokens, pos + 2);
    assert(c.result is Ok && cond.result is Ok && c.consumed == cond.consumed + 3);
    let p = pos + c.consumed;
    let then_branch = block(tokens, p);
    assert(then_branch.result is Ok);
    let q = p + then_branch.consumed;
    expression_gives_what_is_written(tokens, pos + 2);
    block_gives_what_is_written(tokens, p);
    if token_at(tokens, q) == Some(TokenView::Butterflies) {
        let else_branch = block(tokens, q + 1);
        assert(else_branch.result is Ok);
        block_gives_what_is_written(tokens, q + 1);
        an_if_is_written(
            tokens,
            pos,
            cond.result->Ok_0,
            p - 1,
            then_branch.result->Ok_0,
            q,
            Some(else_branch.result->Ok_0),
            q + 1 + else_branch.consumed,
        );
    } else {
        an_if_is_written(
            tokens,
            pos,
            cond.result->Ok_0,
            p - 1,
            then_branch.result->Ok_0,
            q,
            None,
            q,
        );
    }
}

/// A `while` that is recognised is written where it was read.
pub proof fn while_statement_gives_what_is_written(tokens: Seq<TokenView>, pos: int)
    requires
        token_at(tokens, pos) == Some(TokenView::Dating),
        while_statement(tokens, pos).result is Ok,
    ensures
        written(while_statement(tokens, pos).result->Ok_0, tokens, pos) == Some(
            pos + while_statement(tokens, pos).consumed,
        ),
    decreases remaining(tokens, pos), 20nat, 0nat,
{
    let c = condition(tokens, pos, "Expected '(' after 'dating'"@);
    let cond = expression(tokens, pos + 2);
    let body = block(tokens, pos + c.consumed);
    expression_gives_what_is_written(tokens, pos + 2);
    block_gives_what_is_written(tokens, pos + c.consumed);
    a_while_is_written(
        tokens,
        pos,
        cond.result->Ok_0,
        pos + c.consumed - 1,
        body.result->Ok_0,
        pos + c.consumed + body.consumed,
    );
}

/// A statement that starts with `whisper` or `promise` and is recognised is
/// written where it was read.
pub proof fn keyword_statement_gives_what_is_written(tokens: Seq<TokenView>, pos: int)
    requires
        token_at(tokens, pos) == Some(TokenView::Whisper) || token_at(tokens, pos) == Some(
            TokenView::Promise,
        ),
        statement(tokens, pos).result is Ok,
    ensures
        written(statement(tokens, pos).result->Ok_0, tokens, pos) == Some(
            pos + statement(tokens, pos).consumed,
        ),
{
    reveal(print_statement);
    reveal(return_statement);
    if token_at(tokens, pos) == Some(TokenView::Whisper) {
        expression_gives_what_is_written(tokens, pos + 1);
    } else {
        if token_at(tokens, pos + 1) != Some(TokenView::Semicolon) {
            expression_gives_what_is_written(tokens, pos + 1);
        }
    }
}

/// A statement that is recognised is written where it was read.
pub proof fn statement_gives_what_is_written(tokens: Seq<TokenView>, pos: int)
    requires
        statement(tokens, pos).result is Ok,
    ensures
        written(statement(tokens, pos).result->Ok_0, tokens, pos) == Some(
            pos + statement(tokens, pos).consumed,
        ),
    decreases remaining(tokens, pos), 21nat, 0nat,
{
    reveal(expression_statement);
    match token_at(tokens, pos) {
        Some(TokenView::Whisper) => {
            keyword_statement_gives_what_is_written(tokens, pos);
        },
        Some(TokenView::Promise) => {
            keyword_statement_gives_what_is_written(tokens, pos);
        },
        Some(TokenView::Crush) => {
            if_statement_gives_what_is_written(tokens, pos);
        },
        Some(TokenView::Dating) => {
            while_statement_gives_what_is_written(tokens, pos);
        },
        Some(TokenView::LBrace) => {
            block_gives_what_is_written(tokens, pos);
            a_block_is_written(tokens, pos, block(tokens, pos).result->Ok_0);
        },
        _ => {
            expression_gives_what_is_written(tokens, pos);
            an_expression_statement_is_written(tokens, pos, expression(tokens, pos).result->Ok_0);
        },
    }
}

/// A declaration that is recognised is written where it was read: the
/// parser gives no tree but one that the tokens it took write, in their
/// order.
pub proof fn declaration_gives_what_is_written(tokens: Seq<TokenView>, pos: int)
    requires
        declaration(tokens, pos).result is Ok,
    ensures
        written(declaration(tokens, pos).result->Ok_0, tokens, pos) == Some(
            pos + declaration(tokens, pos).consumed,
        ),
    decreases remaining(tokens, pos), 22nat, 0nat,
{
    match token_at(tokens, pos) {
        Some(TokenView::Heart) => {
            var_declaration_gives_what_is_written(tokens, pos);
        },
        Some(TokenView::Forever) => {
            var_declaration_gives_what_is_written(tokens, pos);
        },
        Some(TokenView::Devotion) => {
            function_declaration_gives_what_is_written(tokens, pos);
        },
        _ => {
            statement_gives_what_is_written(tokens, pos);
        },
    }
}

/// A program that is recognised is written by the tokens from the place
/// where the parser started up to a place where no token is left: every
/// token that was read belongs to the tree, in the order of the source.
pub proof fn program_gives_what_is_written(tokens: Seq<TokenView>, pos: int)
    requires
        program(tokens, pos).result is Ok,
    ensures
        written(program(tokens, pos).result->Ok_0, tokens, pos) == Some(
            pos + program(tokens, pos).consumed,
        ),
        token_at(tokens, pos + program(tokens, pos).consumed) is None,
{
    sequence_gives_what_is_written(tokens, pos, pos, false, Seq::empty());
    sequence_reads_to_its_end(tokens, pos, false, Seq::empty());
    a_program_is_written(tokens, pos, sequence(tokens, pos, false, Seq::empty()).result->Ok_0);
}

/// A sequence of declarations that is recognised ends where sequences end:
/// at the end of the tokens, or inside a block at its `}`.
pub proof fn sequence_reads_to_its_end(
    tokens: Seq<TokenView>,
    pos: int,
    in_block: bool,
    seen: Seq<AstView>,
)
    requires
        sequence(tokens, pos, in_block, seen).result is Ok,
    ensures
        sequence_ends(tokens, pos + sequence(tokens, pos, in_block, seen).consumed, in_block),
    decreases remaining(tokens, pos),
{
    if !sequence_ends(tokens, pos, in_block) {
        let item = declaration(tokens, pos);
        declaration_takes_a_token(tokens, pos);
        sequence_reads_to_its_end(
            tokens,
            pos + item.consumed,
            in_block,
            seen.push(item.result->Ok_0),
        );
    }
}

} // verus!
