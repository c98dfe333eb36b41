//! The grammar, as functions from a token sequence and a position in it.
//!
//! Each rule gives a [`Step`]: the tree it recognised or the message of the
//! first error, and how many tokens it took. Binary operators are one rule
//! over six levels of binding power; every level is left-associative.
use crate::lexer::token::TokenView;
use crate::number::{double_from_int, Double};
use crate::parser::ast::AstView;
use crate::shared_types::{BinaryOp, Type, ValueView};
use vstd::prelude::*;

verus! {

/// What a rule gives at a position.
pub struct Step<T> {
    /// What was recognised, or the message of the error.
    pub result: Result<T, Seq<char>>,
    /// How many tokens the rule took, whether it succeeded or not.
    pub consumed: nat,
}

/// A rule that succeeded.
pub open spec fn done<T>(value: T, consumed: nat) -> Step<T> {
    Step { result: Ok(value), consumed }
}

/// A rule that failed.
pub open spec fn failed<T>(message: Seq<char>, consumed: nat) -> Step<T> {
    Step { result: Err(message), consumed }
}

/// The step `step`, made after `consumed` tokens were taken already.
pub open spec fn after<T>(consumed: nat, step: Step<T>) -> Step<T> {
    Step { result: step.result, consumed: consumed + step.consumed }
}

/// The token at `pos`, if there is one.
pub open spec fn token_at(tokens: Seq<TokenView>, pos: int) -> Option<TokenView> {
    if 0 <= pos < tokens.len() {
        Some(tokens[pos])
    } else {
        None
    }
}

/// How many tokens are left from `pos` on.
pub open spec fn remaining(tokens: Seq<TokenView>, pos: int) -> nat {
    if pos < tokens.len() {
        (tokens.len() - pos) as nat
    } else {
        0
    }
}

/// Takes the token `expected`, or fails with `message` and takes nothing.
pub open spec fn consume(
    tokens: Seq<TokenView>,
    pos: int,
    expected: TokenView,
    message: Seq<char>,
) -> Step<()> {
    if token_at(tokens, pos) == Some(expected) {
        done((), 1)
    } else {
        failed(message, 0)
    }
}

/// A type name.
pub open spec fn parse_type(tokens: Seq<TokenView>, pos: int) -> Step<Type> {
    match token_at(tokens, pos) {
        Some(TokenView::TypeNumber) => done(Type::Number, 1),
        Some(TokenView::TypeText) => done(Type::Text, 1),
        Some(TokenView::TypeFeeling) => done(Type::Boolean, 1),
        Some(_) => failed("Expected type"@, 1),
        None => failed("Expected type"@, 0),
    }
}

/// The operator that `token` stands for at the given level, if any. There
/// are six levels, and level 0 binds loosest: `or`; `and`; equality;
/// ordering; sum; product.
pub open spec fn operator_at(level: nat, token: TokenView) -> Option<BinaryOp> {
    if level == 0 {
        match token {
            TokenView::Or => Some(BinaryOp::Or),
            _ => None,
        }
    } else if level == 1 {
        match token {
            TokenView::And => Some(BinaryOp::And),
            _ => None,
        }
    } else if level == 2 {
        match token {
            TokenView::Soulmate => Some(BinaryOp::Equal),
            TokenView::NotEqual => Some(BinaryOp::NotEqual),
            _ => None,
        }
    } else if level == 3 {
        match token {
            TokenView::LessThan => Some(BinaryOp::Less),
            TokenView::GreaterThan => Some(BinaryOp::Greater),
            TokenView::LessThanEqual => Some(BinaryOp::LessEqual),
            TokenView::GreaterThanEqual => Some(BinaryOp::GreaterEqual),
            _ => None,
        }
    } else if level == 4 {
        match token {
            TokenView::Cuddle => Some(BinaryOp::Add),
            TokenView::Breakup => Some(BinaryOp::Subtract),
            _ => None,
        }
    } else if level == 5 {
        match token {
            TokenView::Kiss => Some(BinaryOp::Multiply),
            TokenView::Split => Some(BinaryOp::Divide),
            _ => None,
        }
    } else {
        None
    }
}

/// The operator at `pos` for the given level, if the token there is one.
pub open spec fn operator_here(tokens: Seq<TokenView>, pos: int, level: nat) -> Option<BinaryOp> {
    match token_at(tokens, pos) {
        Some(t) => operator_at(level, t),
        None => None,
    }
}

/// The place of the rule for a level among the rules that call one another
/// at the same position.
pub open spec fn level_rank(level: nat) -> nat {
    if level < 6 {
        (3 + 2 * (5 - level)) as nat
    } else {
        2
    }
}

/// A literal, a name, or an expression in parentheses.
pub open spec fn primary(tokens: Seq<TokenView>, pos: int) -> Step<AstView>
    decreases remaining(tokens, pos), 0nat, 0nat,
{
    match token_at(tokens, pos) {
        Some(TokenView::Number(n)) => done(
            AstView::Literal(ValueView::Number(Double { bits: double_from_int(n) })),
            1,
        ),
        Some(TokenView::Text(s)) => done(AstView::Literal(ValueView::Text(s)), 1),
        Some(TokenView::Yes) => done(AstView::Literal(ValueView::Boolean(true)), 1),
        Some(TokenView::No) => done(AstView::Literal(ValueView::Boolean(false)), 1),
        Some(TokenView::LParen) => {
            let inner = expression(tokens, pos + 1);
            match inner.result {
                Ok(e) => {
                    let close = consume(
                        tokens,
                        pos + 1 + inner.consumed,
                        TokenView::RParen,
                        "Expected ')' after expression"@,
                    );
                    match close.result {
                        Ok(_) => done(AstView::Grouping(Box::new(e)), 1 + inner.consumed + 1),
                        Err(m) => failed(m, 1 + inner.consumed),
                    }
                },
                Err(m) => failed(m, 1 + inner.consumed),
            }
        },
        Some(TokenView::Identifier(name)) => done(AstView::Variable(name), 1),
        Some(_) => failed("Expected expression"@, 1),
        None => failed("Expected expression"@, 0),
    }
}

/// Any number of `not`, then a primary.
pub open spec fn unary(tokens: Seq<TokenView>, pos: int) -> Step<AstView>
    decreases remaining(tokens, pos), 1nat, 0nat,
{
    if token_at(tokens, pos) == Some(TokenView::Not) {
        let operand = unary(tokens, pos + 1);
        match operand.result {
            Ok(e) => done(
                AstView::Unary { operator: BinaryOp::Not, operand: Box::new(e) },
                1 + operand.consumed,
            ),
            Err(m) => failed(m, 1 + operand.consumed),
        }
    } else {
        primary(tokens, pos)
    }
}

/// Operands joined by the operators of `level`, grouped from the left. An
/// operand is an expression of the next level, and a unary expression at the
/// last.
pub open spec fn binary(tokens: Seq<TokenView>, pos: int, level: nat) -> Step<AstView>
    decreases remaining(tokens, pos), level_rank(level), 2nat,
{
    let first = if level >= 5 {
        unary(tokens, pos)
    } else {
        binary(tokens, pos, level + 1)
    };
    match first.result {
        Ok(left) => after(first.consumed, binary_rest(tokens, pos + first.consumed, level, left)),
        Err(_) => first,
    }
}

/// What follows the operand `left` at `level`: as long as an operator of the
/// level comes next, one more operand, joined to what stands to its left.
pub open spec fn binary_rest(
    tokens: Seq<TokenView>,
    pos: int,
    level: nat,
    left: AstView,
) -> Step<AstView>
    decreases remaining(tokens, pos), level_rank(level), 0nat,
{
    match operator_here(tokens, pos, level) {
        Some(operator) => {
            let next = if level >= 5 {
                unary(tokens, pos + 1)
            } else {
                binary(tokens, pos + 1, level + 1)
            };
            match next.result {
                Ok(right) => after(
                    1 + next.consumed,
                    binary_rest(
                        tokens,
                        pos + 1 + next.consumed,
                        level,
                        AstView::Binary { left: Box::new(left), operator, right: Box::new(right) },
                    ),
                ),
                Err(m) => failed(m, 1 + next.consumed),
            }
        },
        None => done(left, 0),
    }
}

/// An assignment, right-associative: only a bare name can stand on its left.
pub open spec fn assignment(tokens: Seq<TokenView>, pos: int) -> Step<AstView>
    decreases remaining(tokens, pos), 14nat, 0nat,
{
    let target = binary(tokens, pos, 0);
    match target.result {
        Ok(expr) => {
            if token_at(tokens, pos + target.consumed) == Some(TokenView::Match) {
                let value = assignment(tokens, pos + target.consumed + 1);
                match value.result {
                    Ok(v) => match expr {
                        AstView::Variable(name) => done(
                            AstView::Assign { name, value: Box::new(v) },
                            target.consumed + 1 + value.consumed,
                        ),
                        _ => failed(
                            "Invalid assignment target"@,
                            target.consumed + 1 + value.consumed,
                        ),
                    },
                    Err(m) => failed(m, target.consumed + 1 + value.consumed),
                }
            } else {
                target
            }
        },
        Err(_) => target,
    }
}

/// An expression.
pub open spec fn expression(tokens: Seq<TokenView>, pos: int) -> Step<AstView>
    decreases remaining(tokens, pos), 15nat, 0nat,
{
    assignment(tokens, pos)
}

/// An expression that was read after `before` tokens of its rule, and the
/// token that must close it.
pub open spec fn closed_expression(
    tokens: Seq<TokenView>,
    pos: int,
    before: nat,
    inner: Step<AstView>,
    closing: TokenView,
    message: Seq<char>,
) -> Step<AstView> {
    match inner.result {
        Ok(e) => {
            let close = consume(tokens, pos + before + inner.consumed, closing, message);
            match close.result {
                Ok(_) => done(e, before + inner.consumed + 1),
                Err(m) => failed(m, before + inner.consumed),
            }
        },
        Err(m) => failed(m, before + inner.consumed),
    }
}

/// An expression used as a statement: it ends with a semicolon.
#[verifier::opaque]
pub open spec fn expression_statement(tokens: Seq<TokenView>, pos: int) -> Step<AstView>
    decreases remaining(tokens, pos), 20nat, 0nat,
{
    let e = closed_expression(
        tokens,
        pos,
        0,
        expression(tokens, pos),
        TokenView::Semicolon,
        "Expected ';' after expression"@,
    );
    match e.result {
        Ok(v) => done(AstView::ExpressionStmt(Box::new(v)), e.consumed),
        Err(_) => e,
    }
}

/// `whisper` expression `;`
#[verifier::opaque]
pub open spec fn print_statement(tokens: Seq<TokenView>, pos: int) -> Step<AstView>
    decreases remaining(tokens, pos), 20nat, 0nat,
    when 0 <= pos < tokens.len()
{
    let e = closed_expression(
        tokens,
        pos,
        1,
        expression(tokens, pos + 1),
        TokenView::Semicolon,
        "Expected ';' after value"@,
    );
    match e.result {
        Ok(v) => done(AstView::PrintStmt(Box::new(v)), e.consumed),
        Err(_) => e,
    }
}

/// `promise` and an optional expression, then `;`
#[verifier::opaque]
pub open spec fn return_statement(tokens: Seq<TokenView>, pos: int) -> Step<AstView>
    decreases remaining(tokens, pos), 20nat, 0nat,
    when 0 <= pos < tokens.len()
{
    if token_at(tokens, pos + 1) == Some(TokenView::Semicolon) {
        done(AstView::ReturnStmt(None), 2)
    } else {
        let e = closed_expression(
            tokens,
            pos,
            1,
            expression(tokens, pos + 1),
            TokenView::Semicolon,
            "Expected ';' after return value"@,
        );
        match e.result {
            Ok(v) => done(AstView::ReturnStmt(Some(Box::new(v))), e.consumed),
            Err(_) => e,
        }
    }
}

/// What follows the name, and the type if one was given, in a declaration of
/// a variable: `match` expression `;`
pub open spec fn initializer(tokens: Seq<TokenView>, pos: int) -> Step<AstView>
    decreases remaining(tokens, pos), 19nat, 0nat,
{
    let assign = consume(tokens, pos, TokenView::Match, "Expected 'match' after variable name"@);
    match assign.result {
        Ok(_) => closed_expression(
            tokens,
            pos,
            1,
            expression(tokens, pos + 1),
            TokenView::Semicolon,
            "Expected ';' after variable declaration"@,
        ),
        Err(m) => failed(m, 0),
    }
}

/// `heart` or `forever`, a name, an optional `:` type, `match` expression `;`.
/// The type is read and not kept.
#[verifier::opaque]
pub open spec fn var_declaration(tokens: Seq<TokenView>, pos: int) -> Step<AstView>
    decreases remaining(tokens, pos), 20nat, 0nat,
    when 0 <= pos < tokens.len()
{
    let is_constant = token_at(tokens, pos) == Some(TokenView::Forever);
    match token_at(tokens, pos + 1) {
        Some(TokenView::Identifier(name)) => {
            let annotation: Step<()> = if token_at(tokens, pos + 2) == Some(TokenView::Colon) {
                let t = parse_type(tokens, pos + 3);
                match t.result {
                    Ok(_) => done((), 1 + t.consumed),
                    Err(m) => failed(m, 1 + t.consumed),
                }
            } else {
                done((), 0)
            };
            match annotation.result {
                Ok(_) => {
                    let value = initializer(tokens, pos + 2 + annotation.consumed);
                    match value.result {
                        Ok(v) => done(
                            AstView::VariableDecl { name, is_constant, initializer: Box::new(v) },
                            2 + annotation.consumed + value.consumed,
                        ),
                        Err(m) => failed(m, 2 + annotation.consumed + value.consumed),
                    }
                },
                Err(m) => failed(m, 2 + annotation.consumed),
            }
        },
        Some(_) => failed("Expected variable name"@, 2),
        None => failed("Expected variable name"@, 1),
    }
}

/// A condition in parentheses after a keyword, as `crush` and `dating` take
/// it. `opening` is the message where the `(` is missing.
pub open spec fn condition(tokens: Seq<TokenView>, pos: int, opening: Seq<char>) -> Step<AstView>
    decreases remaining(tokens, pos), 19nat, 0nat,
    when 0 <= pos < tokens.len()
{
    let open = consume(tokens, pos + 1, TokenView::LParen, opening);
    match open.result {
        Ok(_) => closed_expression(
            tokens,
            pos,
            2,
            expression(tokens, pos + 2),
            TokenView::RParen,
            "Expected ')' after condition"@,
        ),
        Err(m) => failed(m, 1),
    }
}

/// `crush (` condition `)` block, then an optional `butterflies` block.
pub open spec fn if_statement(tokens: Seq<TokenView>, pos: int) -> Step<AstView>
    decreases remaining(tokens, pos), 20nat, 0nat,
    when 0 <= pos < tokens.len()
{
    let c = condition(tokens, pos, "Expected '(' after 'crush'"@);
    match c.result {
        Ok(cond) => {
            let then_branch = block(tokens, pos + c.consumed);
            match then_branch.result {
                Ok(then_list) => {
                    let used = c.consumed + then_branch.consumed;
                    if token_at(tokens, pos + used) == Some(TokenView::Butterflies) {
                        let else_branch = block(tokens, pos + used + 1);
                        match else_branch.result {
                            Ok(else_list) => done(
                                AstView::If {
                                    condition: Box::new(cond),
                                    then_branch: then_list,
                                    else_branch: Some(else_list),
                                },
                                used + 1 + else_branch.consumed,
                            ),
                            Err(m) => failed(m, used + 1 + else_branch.consumed),
                        }
                    } else {
                        done(
                            AstView::If {
                                condition: Box::new(cond),
                                then_branch: then_list,
                                else_branch: None,
                            },
                            used,
                        )
                    }
                },
                Err(m) => failed(m, c.consumed + then_branch.consumed),
            }
        },
        Err(_) => c,
    }
}

/// `dating (` condition `)` block
pub open spec fn while_statement(tokens: Seq<TokenView>, pos: int) -> Step<AstView>
    decreases remaining(tokens, pos), 20nat, 0nat,
    when 0 <= pos < tokens.len()
{
    let c = condition(tokens, pos, "Expected '(' after 'dating'"@);
    match c.result {
        Ok(cond) => {
            let body = block(tokens, pos + c.consumed);
            match body.result {
                Ok(list) => done(
                    AstView::While { condition: Box::new(cond), body: list },
                    c.consumed + body.consumed,
                ),
                Err(m) => failed(m, c.consumed + body.consumed),
            }
        },
        Err(_) => c,
    }
}

/// The parameters of a function, each a name, `:` and a type, with commas
/// between them; `seen` holds those read so far.
pub open spec fn parameters(
    tokens: Seq<TokenView>,
    pos: int,
    seen: Seq<(Seq<char>, Type)>,
) -> Step<Seq<(Seq<char>, Type)>>
    decreases remaining(tokens, pos),
{
    match token_at(tokens, pos) {
        Some(TokenView::Identifier(name)) => {
            let colon = consume(
                tokens,
                pos + 1,
                TokenView::Colon,
                "Expected ':' after parameter name"@,
            );
            match colon.result {
                Ok(_) => {
                    let t = parse_type(tokens, pos + 2);
                    match t.result {
                        Ok(declared) => {
                            if token_at(tokens, pos + 3) == Some(TokenView::Comma) {
                                after(4, parameters(tokens, pos + 4, seen.push((name, declared))))
                            } else {
                                done(seen.push((name, declared)), 3)
                            }
                        },
                        Err(m) => failed(m, 2 + t.consumed),
                    }
                },
                Err(m) => failed(m, 1),
            }
        },
        Some(_) => failed("Expected parameter name"@, 1),
        None => failed("Expected parameter name"@, 0),
    }
}

/// The parameters between the parentheses of a function declaration, which
/// may be none.
pub open spec fn parameter_list(tokens: Seq<TokenView>, pos: int) -> Step<Seq<(Seq<char>, Type)>> {
    if token_at(tokens, pos) == Some(TokenView::RParen) {
        done(Seq::empty(), 0)
    } else {
        parameters(tokens, pos, Seq::empty())
    }
}

/// An optional `->` and type.
pub open spec fn return_type(tokens: Seq<TokenView>, pos: int) -> Step<Option<Type>> {
    if token_at(tokens, pos) == Some(TokenView::Arrow) {
        let t = parse_type(tokens, pos + 1);
        match t.result {
            Ok(declared) => done(Some(declared), 1 + t.consumed),
            Err(m) => failed(m, 1 + t.consumed),
        }
    } else {
        done(None, 0)
    }
}

/// `devotion` name `(` parameters `)`, an optional `->` type, and a block.
pub open spec fn function_declaration(tokens: Seq<TokenView>, pos: int) -> Step<AstView>
    decreases remaining(tokens, pos), 20nat, 0nat,
    when 0 <= pos < tokens.len()
{
    match token_at(tokens, pos + 1) {
        Some(TokenView::Identifier(name)) => {
            let open = consume(
                tokens,
                pos + 2,
                TokenView::LParen,
                "Expected '(' after function name"@,
            );
            match open.result {
                Ok(_) => {
                    let params = parameter_list(tokens, pos + 3);
                    match params.result {
                        Ok(list) => {
                            let close = consume(
                                tokens,
                                pos + 3 + params.consumed,
                                TokenView::RParen,
                                "Expected ')' after parameters"@,
                            );
                            match close.result {
                                Ok(_) => {
                                    let head = 4 + params.consumed;
                                    let declared = return_type(tokens, pos + head);
                                    match declared.result {
                                        Ok(result_type) => {
                                            let body = block(
                                                tokens,
                                                pos + head + declared.consumed,
                                            );
                                            match body.result {
                                                Ok(statements) => done(
                                                    AstView::FunctionDecl {
                                                        name,
                                                        params: list,
                                                        return_type: result_type,
                                                        body: statements,
                                                    },
                                                    head + declared.consumed + body.consumed,
                                                ),
                                                Err(m) => failed(
                                                    m,
                                                    head + declared.consumed + body.consumed,
                                                ),
                                            }
                                        },
                                        Err(m) => failed(m, head + declared.consumed),
                                    }
                                },
                                Err(m) => failed(m, 3 + params.consumed),
                            }
                        },
                        Err(m) => failed(m, 3 + params.consumed),
                    }
                },
                Err(m) => failed(m, 2),
            }
        },
        Some(_) => failed("Expected function name"@, 2),
        None => failed("Expected function name"@, 1),
    }
}

/// `{`, declarations, `}`
pub open spec fn block(tokens: Seq<TokenView>, pos: int) -> Step<Seq<AstView>>
    decreases remaining(tokens, pos), 20nat, 0nat,
{
    let open = consume(tokens, pos, TokenView::LBrace, "Expected '{' before block"@);
    match open.result {
        Ok(_) => {
            let items = sequence(tokens, pos + 1, true, Seq::empty());
            match items.result {
                Ok(list) => {
                    let close = consume(
                        tokens,
                        pos + 1 + items.consumed,
                        TokenView::RBrace,
                        "Expected '}' after block"@,
                    );
                    match close.result {
                        Ok(_) => done(list, 1 + items.consumed + 1),
                        Err(m) => failed(m, 1 + items.consumed),
                    }
                },
                Err(m) => failed(m, 1 + items.consumed),
            }
        },
        Err(m) => failed(m, 0),
    }
}

/// Whether a sequence of declarations ends at `pos`: at the end of the
/// tokens, and inside a block at a `}` too.
pub open spec fn sequence_ends(tokens: Seq<TokenView>, pos: int, in_block: bool) -> bool {
    token_at(tokens, pos) is None || (in_block && token_at(tokens, pos) == Some(
        TokenView::RBrace,
    ))
}

/// Declarations one after another, up to the end of the block or of the
/// tokens; `seen` holds those read so far. Every declaration takes at least
/// one token (see [`crate::parser::laws::declaration_takes_a_token`]), so the
/// branch for one that took none is never reached.
pub open spec fn sequence(
    tokens: Seq<TokenView>,
    pos: int,
    in_block: bool,
    seen: Seq<AstView>,
) -> Step<Seq<AstView>>
    decreases remaining(tokens, pos), 23nat, 0nat,
{
    if sequence_ends(tokens, pos, in_block) {
        done(seen, 0)
    } else {
        let item = declaration(tokens, pos);
        match item.result {
            Ok(node) => if item.consumed > 0 {
                after(
                    item.consumed,
                    sequence(tokens, pos + item.consumed, in_block, seen.push(node)),
                )
            } else {
                done(seen.push(node), 0)
            },
            Err(m) => failed(m, item.consumed),
        }
    }
}

/// A statement, told by its first token; an expression statement where no
/// keyword and no `{` starts it.
pub open spec fn statement(tokens: Seq<TokenView>, pos: int) -> Step<AstView>
    decreases remaining(tokens, pos), 21nat, 0nat,
{
    match token_at(tokens, pos) {
        Some(TokenView::Whisper) => print_statement(tokens, pos),
        Some(TokenView::Crush) => if_statement(tokens, pos),
        Some(TokenView::Dating) => while_statement(tokens, pos),
        Some(TokenView::Promise) => return_statement(tokens, pos),
        Some(TokenView::LBrace) => {
            let b = block(tokens, pos);
            match b.result {
                Ok(list) => done(AstView::Block(list), b.consumed),
                Err(m) => failed(m, b.consumed),
            }
        },
        _ => expression_statement(tokens, pos),
    }
}

/// A declaration of a variable or of a function, or a statement.
pub open spec fn declaration(tokens: Seq<TokenView>, pos: int) -> Step<AstView>
    decreases remaining(tokens, pos), 22nat, 0nat,
{
    match token_at(tokens, pos) {
        Some(TokenView::Heart) => var_declaration(tokens, pos),
        Some(TokenView::Forever) => var_declaration(tokens, pos),
        Some(TokenView::Devotion) => function_declaration(tokens, pos),
        _ => statement(tokens, pos),
    }
}

/// A program: declarations up to the end of the tokens.
pub open spec fn program(tokens: Seq<TokenView>, pos: int) -> Step<AstView> {
    let items = sequence(tokens, pos, false, Seq::empty());
    match items.result {
        Ok(list) => done(AstView::Program(list), items.consumed),
        Err(m) => failed(m, items.consumed),
    }
}

} // verus!
