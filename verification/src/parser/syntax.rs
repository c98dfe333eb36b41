//! How each node is written: the tokens of a tree, in the order of the
//! source.
//!
//! [`written`] reads a tree off the tokens from a place on and gives the
//! place after it, or nothing where the tokens there do not write the tree.
//! It says which tokens a node is made of and knows nothing of binding power:
//! that the parser gives only trees that are written where it read them is
//! the law [`crate::parser::laws::declaration_gives_what_is_written`].
use crate::lexer::token::TokenView;
use crate::number::{double_from_int, Double};
use crate::parser::ast::AstView;
use crate::parser::grammar::token_at;
use crate::shared_types::{BinaryOp, Type, ValueView};
use vstd::prelude::*;

verus! {

/// The token that writes a binary operator; `not` is no binary operator.
pub open spec fn operator_token(operator: BinaryOp) -> Option<TokenView> {
    match operator {
        BinaryOp::Add => Some(TokenView::Cuddle),
        BinaryOp::Subtract => Some(TokenView::Breakup),
        BinaryOp::Multiply => Some(TokenView::Kiss),
        BinaryOp::Divide => Some(TokenView::Split),
        BinaryOp::Equal => Some(TokenView::Soulmate),
        BinaryOp::NotEqual => Some(TokenView::NotEqual),
        BinaryOp::Less => Some(TokenView::LessThan),
        BinaryOp::Greater => Some(TokenView::GreaterThan),
        BinaryOp::LessEqual => Some(TokenView::LessThanEqual),
        BinaryOp::GreaterEqual => Some(TokenView::GreaterThanEqual),
        BinaryOp::And => Some(TokenView::And),
        BinaryOp::Or => Some(TokenView::Or),
        BinaryOp::Not => None,
    }
}

/// The token that writes a type; the type of functions cannot be written.
pub open spec fn type_token(t: Type) -> Option<TokenView> {
    match t {
        Type::Number => Some(TokenView::TypeNumber),
        Type::Text => Some(TokenView::TypeText),
        Type::Boolean => Some(TokenView::TypeFeeling),
        Type::Function => None,
    }
}

/// Whether the token `t` stands at `pos`.
pub open spec fn stands(tokens: Seq<TokenView>, pos: int, t: TokenView) -> bool {
    token_at(tokens, pos) == Some(t)
}

/// Whether a type name stands at `pos`.
pub open spec fn has_type(tokens: Seq<TokenView>, pos: int) -> bool {
    stands(tokens, pos, TokenView::TypeNumber) || stands(tokens, pos, TokenView::TypeText) || stands(
        tokens,
        pos,
        TokenView::TypeFeeling,
    )
}

/// The place after the node `ast`, if the tokens from `pos` on write it.
pub open spec fn written(ast: AstView, tokens: Seq<TokenView>, pos: int) -> Option<int>
    decreases ast, 1nat,
{
    match ast {
        AstView::Literal(value) => written_literal(value, tokens, pos),
        AstView::Variable(name) => if stands(tokens, pos, TokenView::Identifier(name)) {
            Some(pos + 1)
        } else {
            None
        },
        AstView::Grouping(inner) => if stands(tokens, pos, TokenView::LParen) {
            closed_by(written(*inner, tokens, pos + 1), tokens, TokenView::RParen)
        } else {
            None
        },
        AstView::Unary { operator, operand } => if operator == BinaryOp::Not && stands(
            tokens,
            pos,
            TokenView::Not,
        ) {
            written(*operand, tokens, pos + 1)
        } else {
            None
        },
        AstView::Binary { left, operator, right } => match written(*left, tokens, pos) {
            Some(p) => if operator_token(operator) is Some && token_at(tokens, p)
                == operator_token(operator) {
                written(*right, tokens, p + 1)
            } else {
                None
            },
            None => None,
        },
        AstView::Assign { name, value } => if stands(tokens, pos, TokenView::Identifier(name))
            && stands(tokens, pos + 1, TokenView::Match) {
            written(*value, tokens, pos + 2)
        } else {
            None
        },
        AstView::ExpressionStmt(inner) => closed_by(
            written(*inner, tokens, pos),
            tokens,
            TokenView::Semicolon,
        ),
        AstView::PrintStmt(inner) => if stands(tokens, pos, TokenView::Whisper) {
            closed_by(written(*inner, tokens, pos + 1), tokens, TokenView::Semicolon)
        } else {
            None
        },
        AstView::ReturnStmt(inner) => if stands(tokens, pos, TokenView::Promise) {
            match inner {
                Some(e) => closed_by(written(*e, tokens, pos + 1), tokens, TokenView::Semicolon),
                None => closed_by(Some(pos + 1), tokens, TokenView::Semicolon),
            }
        } else {
            None
        },
        AstView::VariableDecl { .. } => written_variable(ast, tokens, pos),
        AstView::Block(statements) => written_block(statements, tokens, pos),
        AstView::If { .. } => written_if(ast, tokens, pos),
        AstView::While { .. } => written_while(ast, tokens, pos),
        AstView::FunctionDecl { .. } => written_function(ast, tokens, pos),
        AstView::Program(statements) => written_list(statements, 0, tokens, pos),
        AstView::Call { .. } => None,
    }
}

/// The place after a literal, if the token at `pos` writes it: a number by
/// an integer that converts to it, a text or a boolean by its token. Other
/// values are never written.
pub open spec fn written_literal(value: ValueView, tokens: Seq<TokenView>, pos: int) -> Option<
    int,
> {
    match value {
        ValueView::Number(d) => match token_at(tokens, pos) {
            Some(TokenView::Number(n)) => if d == (Double { bits: double_from_int(n) }) {
                Some(pos + 1)
            } else {
                None
            },
            _ => None,
        },
        ValueView::Text(s) => if stands(tokens, pos, TokenView::Text(s)) {
            Some(pos + 1)
        } else {
            None
        },
        ValueView::Boolean(b) => if stands(
            tokens,
            pos,
            if b {
                TokenView::Yes
            } else {
                TokenView::No
            },
        ) {
            Some(pos + 1)
        } else {
            None
        },
        _ => None,
    }
}

/// The place after a declaration of a variable: `heart` or `forever`, the
/// name, a type after `:` if one is given, `match`, the initializer and `;`.
pub open spec fn written_variable(ast: AstView, tokens: Seq<TokenView>, pos: int) -> Option<int>
    decreases ast, 0nat,
{
    match ast {
        AstView::VariableDecl { name, is_constant, initializer } => if stands(
            tokens,
            pos,
            if is_constant {
                TokenView::Forever
            } else {
                TokenView::Heart
            },
        ) && stands(tokens, pos + 1, TokenView::Identifier(name)) {
            let typed = stands(tokens, pos + 2, TokenView::Colon);
            let p = if typed {
                pos + 4
            } else {
                pos + 2
            };
            if (typed ==> has_type(tokens, pos + 3)) && stands(tokens, p, TokenView::Match) {
                closed_by(written(*initializer, tokens, p + 1), tokens, TokenView::Semicolon)
            } else {
                None
            }
        } else {
            None
        },
        _ => None,
    }
}

/// The place after an `if`: `crush (`, the condition, `)`, a block, and
/// where it has an `else`, `butterflies` and a block; without one, no
/// `butterflies` comes next.
pub open spec fn written_if(ast: AstView, tokens: Seq<TokenView>, pos: int) -> Option<int>
    decreases ast, 0nat,
{
    match ast {
        AstView::If { condition, then_branch, else_branch } => if stands(
            tokens,
            pos,
            TokenView::Crush,
        ) && stands(tokens, pos + 1, TokenView::LParen) {
            match closed_by(written(*condition, tokens, pos + 2), tokens, TokenView::RParen) {
                Some(p) => match written_block(then_branch, tokens, p) {
                    Some(q) => match else_branch {
                        Some(statements) => if stands(tokens, q, TokenView::Butterflies) {
                            written_block(statements, tokens, q + 1)
                        } else {
                            None
                        },
                        None => if stands(tokens, q, TokenView::Butterflies) {
                            None
                        } else {
                            Some(q)
                        },
                    },
                    None => None,
                },
                None => None,
            }
        } else {
            None
        },
        _ => None,
    }
}

/// The place after a `while`: `dating (`, the condition, `)` and a block.
pub open spec fn written_while(ast: AstView, tokens: Seq<TokenView>, pos: int) -> Option<int>
    decreases ast, 0nat,
{
    match ast {
        AstView::While { condition, body } => if stands(tokens, pos, TokenView::Dating)
            && stands(tokens, pos + 1, TokenView::LParen) {
            match closed_by(written(*condition, tokens, pos + 2), tokens, TokenView::RParen) {
                Some(p) => written_block(body, tokens, p),
                None => None,
            }
        } else {
            None
        },
        _ => None,
    }
}

/// The place after a declaration of a function: `devotion`, the name, `(`,
/// the parameters, `)`, where it has a return type `->` and the type, and a
/// block; without a return type, no `->` comes after the `)`.
pub open spec fn written_function(ast: AstView, tokens: Seq<TokenView>, pos: int) -> Option<int>
    decreases ast, 0nat,
{
    match ast {
        AstView::FunctionDecl { name, params, return_type, body } => if stands(
            tokens,
            pos,
            TokenView::Devotion,
        ) && stands(tokens, pos + 1, TokenView::Identifier(name)) && stands(
            tokens,
            pos + 2,
            TokenView::LParen,
        ) {
            match closed_by(written_params(params, 0, tokens, pos + 3), tokens, TokenView::RParen) {
                Some(p) => match return_type {
                    Some(t) => if stands(tokens, p, TokenView::Arrow) && type_token(t) is Some
                        && token_at(tokens, p + 1) == type_token(t) {
                        written_block(body, tokens, p + 2)
                    } else {
                        None
                    },
                    None => if stands(tokens, p, TokenView::Arrow) {
                        None
                    } else {
                        written_block(body, tokens, p)
                    },
                },
                None => None,
            }
        } else {
            None
        },
        _ => None,
    }
}

/// The place after `closing`, if it stands where `inner` ends.
pub open spec fn closed_by(inner: Option<int>, tokens: Seq<TokenView>, closing: TokenView) -> Option<
    int,
> {
    match inner {
        Some(p) => if stands(tokens, p, closing) {
            Some(p + 1)
        } else {
            None
        },
        None => None,
    }
}

/// The place after the statements from index `from` on, if the tokens from
/// `pos` on write them one after another.
pub open spec fn written_list(
    statements: Seq<AstView>,
    from: int,
    tokens: Seq<TokenView>,
    pos: int,
) -> Option<int>
    decreases statements, statements.len() - from,
{
    if 0 <= from < statements.len() {
        match written(statements[from], tokens, pos) {
            Some(p) => written_list(statements, from + 1, tokens, p),
            None => None,
        }
    } else {
        Some(pos)
    }
}

/// The place after a block of the statements, if the tokens from `pos` on
/// write it: the statements between braces.
pub open spec fn written_block(statements: Seq<AstView>, tokens: Seq<TokenView>, pos: int) -> Option<
    int,
>
    decreases statements, statements.len() + 1,
{
    if stands(tokens, pos, TokenView::LBrace) {
        closed_by(written_list(statements, 0, tokens, pos + 1), tokens, TokenView::RBrace)
    } else {
        None
    }
}

/// The place after the parameters from index `from` on, if the tokens from
/// `pos` on write them: each a name, `:` and its type, with commas between
/// them.
pub open spec fn written_params(
    params: Seq<(Seq<char>, Type)>,
    from: int,
    tokens: Seq<TokenView>,
    pos: int,
) -> Option<int>
    decreases params.len() - from,
{
    if 0 <= from < params.len() {
        if stands(tokens, pos, TokenView::Identifier(params[from].0)) && stands(
            tokens,
            pos + 1,
            TokenView::Colon,
        ) && type_token(params[from].1) is Some && token_at(tokens, pos + 2) == type_token(
            params[from].1,
        ) {
            if from + 1 < params.len() {
                if stands(tokens, pos + 3, TokenView::Comma) {
                    written_params(params, from + 1, tokens, pos + 4)
                } else {
                    None
                }
            } else {
                Some(pos + 3)
            }
        } else {
            None
        }
    } else {
        Some(pos)
    }
}

} // verus!
