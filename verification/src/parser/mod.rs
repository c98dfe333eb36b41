//! The parser: recursive descent over the token sequence, one token of
//! lookahead, no backtracking. It stops at the first error.
use crate::error::{ErrorView, LoveError};
use crate::lexer::token::{view_of_tokens, Token, TokenView};
use crate::number::Double;
use crate::shared_types::{BinaryOp, Type, Value};
use ast::{view_of_list, view_of_params, Ast, AstView};
use grammar::{remaining, token_at, Step};
use vstd::prelude::*;

pub mod ast;
pub mod grammar;
pub mod laws;
pub mod syntax;

verus! {

/// A parser over a token sequence, with the place it has read up to.
pub struct Parser {
    tokens: Vec<Token>,
    current: usize,
}

/// Whether the outcome `r` of a rule that gives a node is the one that the
/// grammar gives: the same tree, or a syntax error with the same message.
pub open spec fn node_agrees(r: Result<Ast, LoveError>, expected: Result<AstView, Seq<char>>) -> bool {
    match r {
        Ok(node) => expected == Ok::<AstView, Seq<char>>(node@),
        Err(e) => expected is Err && e@ == ErrorView::Parser(expected->Err_0),
    }
}

/// [`node_agrees`] for a rule that gives a list of nodes.
pub open spec fn list_agrees(
    r: Result<Vec<Ast>, LoveError>,
    expected: Result<Seq<AstView>, Seq<char>>,
) -> bool {
    match r {
        Ok(list) => expected == Ok::<Seq<AstView>, Seq<char>>(view_of_list(list@)),
        Err(e) => expected is Err && e@ == ErrorView::Parser(expected->Err_0),
    }
}

/// [`node_agrees`] for a rule that gives a type.
pub open spec fn type_agrees(r: Result<Type, LoveError>, expected: Result<Type, Seq<char>>) -> bool {
    match r {
        Ok(t) => expected == Ok::<Type, Seq<char>>(t),
        Err(e) => expected is Err && e@ == ErrorView::Parser(expected->Err_0),
    }
}

/// [`node_agrees`] for a rule that gives nothing.
pub open spec fn unit_agrees(r: Result<(), LoveError>, expected: Result<(), Seq<char>>) -> bool {
    match r {
        Ok(_) => expected is Ok,
        Err(e) => expected is Err && e@ == ErrorView::Parser(expected->Err_0),
    }
}

/// Whether a rule that gives a node did what the grammar says: it took as
/// many tokens, and gave the same tree or the same error.
pub open spec fn node_step(
    before: &Parser,
    now: &Parser,
    r: Result<Ast, LoveError>,
    step: Step<AstView>,
) -> bool {
    node_agrees(r, step.result) && now.moved(before, step.consumed)
}

/// [`node_step`] for a rule that gives a list of nodes.
pub open spec fn list_step(
    before: &Parser,
    now: &Parser,
    r: Result<Vec<Ast>, LoveError>,
    step: Step<Seq<AstView>>,
) -> bool {
    list_agrees(r, step.result) && now.moved(before, step.consumed)
}

/// The node of a program.
fn program_of(statements: Vec<Ast>) -> (r: Ast)
    ensures
        r@ == AstView::Program(view_of_list(statements@)),
{
    Ast::Program(statements)
}

/// The node of a literal value.
fn literal(value: Value) -> (r: Ast)
    ensures
        r@ == AstView::Literal(value@),
{
    Ast::Literal(value)
}

impl Parser {
    /// The tokens that the parser reads.
    pub closed spec fn tokens(&self) -> Seq<TokenView> {
        view_of_tokens(self.tokens@)
    }

    /// How many tokens the parser has read.
    pub closed spec fn position(&self) -> int {
        self.current as int
    }

    /// Whether this parser is `before` after `consumed` more tokens.
    pub open spec fn moved(&self, before: &Parser, consumed: nat) -> bool {
        self.tokens() == before.tokens() && self.position() == before.position() + consumed
    }

    /// A parser at the start of `tokens`.
    pub fn new(tokens: Vec<Token>) -> (r: Self)
        ensures
            r.tokens() == view_of_tokens(tokens@),
            r.position() == 0,
    {
        Parser { tokens, current: 0 }
    }

    /// The token that comes next, if any.
    fn peek(&self) -> (r: Option<&Token>)
        ensures
            match r {
                Some(t) => token_at(self.tokens(), self.position()) == Some(t@),
                None => token_at(self.tokens(), self.position()) is None,
            },
    {
        if self.current < self.tokens.len() {
            Some(&self.tokens[self.current])
        } else {
            None
        }
    }

    /// Takes the token that comes next, if any, and gives it.
    fn advance(&mut self) -> (r: Option<&Token>)
        ensures
            match r {
                Some(t) => token_at(old(self).tokens(), old(self).position()) == Some(t@)
                    && final(self).moved(old(self), 1),
                None => final(self).moved(old(self), 0) && token_at(
                    old(self).tokens(),
                    old(self).position(),
                ) is None,
            },
    {
        if !self.is_at_end() {
            self.current += 1;
            Some(&self.tokens[self.current - 1])
        } else {
            None
        }
    }

    /// Whether every token has been read.
    fn is_at_end(&self) -> (r: bool)
        ensures
            r == (token_at(self.tokens(), self.position()) is None),
            r == (self.current >= self.tokens.len()),
    {
        self.current >= self.tokens.len()
    }

    /// Takes the token `expected`, or fails with `message` and takes nothing.
    fn consume(&mut self, expected: &Token, message: &str) -> (r: Result<(), LoveError>)
        ensures
            unit_agrees(
                r,
                grammar::consume(old(self).tokens(), old(self).position(), expected@, message@).result,
            ),
            final(self).moved(
                old(self),
                grammar::consume(
                    old(self).tokens(),
                    old(self).position(),
                    expected@,
                    message@,
                ).consumed,
            ),
    {
        if let Some(token) = self.peek() {
            if token == expected {
                self.advance();
                Ok(())
            } else {
                Err(LoveError::Parser(message.to_owned()))
            }
        } else {
            Err(LoveError::Parser(message.to_owned()))
        }
    }

    /// Parses the tokens from the current place to the end into a program.
    /// The first token that the grammar does not allow ends the parse with the
    /// error that says what was expected there.
    pub fn parse(&mut self) -> (r: Result<Ast, LoveError>)
        ensures
            node_step(
                old(self),
                final(self),
                r,
                grammar::program(old(self).tokens(), old(self).position()),
            ),
            r is Ok ==> final(self).position() >= final(self).tokens().len(),
            r is Err ==> r->Err_0 is Parser,
    {
        let statements = self.sequence(false)?;
        Ok(program_of(statements))
    }

    /// Declarations one after another, up to the end of the tokens, and inside
    /// a block up to its `}`.
    fn sequence(&mut self, in_block: bool) -> (r: Result<Vec<Ast>, LoveError>)
        ensures
            list_step(
                old(self),
                final(self),
                r,
                grammar::sequence(old(self).tokens(), old(self).position(), in_block, Seq::empty()),
            ),
            r is Ok ==> grammar::sequence_ends(
                final(self).tokens(),
                final(self).position(),
                in_block,
            ),
        decreases remaining(old(self).tokens(), old(self).position()), 23nat, 0nat,
    {
        let ghost tokens = self.tokens();
        let ghost start = self.position();
        let ghost whole = grammar::sequence(tokens, start, in_block, Seq::empty());
        let mut statements: Vec<Ast> = Vec::new();
        proof {
            assert(view_of_list(statements@) =~= Seq::<AstView>::empty());
        }
        while !self.at_end_of_sequence(in_block)
            invariant
                tokens == old(self).tokens(),
                start == old(self).position(),
                whole == grammar::sequence(tokens, start, in_block, Seq::empty()),
                self.tokens() == tokens,
                self.position() >= start,
                whole.result == grammar::sequence(
                    tokens,
                    self.position(),
                    in_block,
                    view_of_list(statements@),
                ).result,
                whole.consumed == (self.position() - start) + grammar::sequence(
                    tokens,
                    self.position(),
                    in_block,
                    view_of_list(statements@),
                ).consumed,
            decreases remaining(tokens, self.position()),
        {
            proof {
                laws::declaration_takes_a_token(tokens, self.position());
            }
            let ghost seen = view_of_list(statements@);
            let node = match self.declaration() {
                Ok(node) => node,
                Err(e) => {
                    return Err(e);
                },
            };
            let ghost added = node@;
            statements.push(node);
            proof {
                assert(view_of_list(statements@) =~= seen.push(added));
            }
        }
        Ok(statements)
    }

    /// Whether a sequence of declarations ends here.
    fn at_end_of_sequence(&self, in_block: bool) -> (r: bool)
        ensures
            r == grammar::sequence_ends(self.tokens(), self.position(), in_block),
    {
        if self.is_at_end() {
            true
        } else {
            in_block && matches!(self.peek(), Some(Token::RBrace))
        }
    }

    /// A declaration of a variable or of a function, or a statement.
    fn declaration(&mut self) -> (r: Result<Ast, LoveError>)
        ensures
            node_step(
                old(self),
                final(self),
                r,
                grammar::declaration(old(self).tokens(), old(self).position()),
            ),
        decreases remaining(old(self).tokens(), old(self).position()), 22nat, 0nat,
    {
        match self.peek() {
            Some(Token::Heart) | Some(Token::Forever) => self.var_declaration(),
            Some(Token::Devotion) => self.function_declaration(),
            _ => self.statement(),
        }
    }

    /// `heart` or `forever`, a name, an optional `:` type, `match` expression
    /// `;`. The type is read and not kept.
    fn var_declaration(&mut self) -> (r: Result<Ast, LoveError>)
        requires
            token_at(old(self).tokens(), old(self).position()) is Some,
        ensures
            node_step(
                old(self),
                final(self),
                r,
                grammar::var_declaration(old(self).tokens(), old(self).position()),
            ),
        decreases remaining(old(self).tokens(), old(self).position()), 20nat, 0nat,
    {
        proof {
            reveal(grammar::var_declaration);
        }
        let is_constant = matches!(self.peek(), Some(Token::Forever));
        self.advance();
        let name = match self.advance() {
            Some(Token::Identifier(name)) => name.clone(),
            _ => {
                return Err(LoveError::Parser("Expected variable name".to_owned()));
            },
        };
        if let Some(Token::Colon) = self.peek() {
            self.advance();
            self.parse_type()?;
        }
        self.consume(&Token::Match, "Expected 'match' after variable name")?;
        let initializer = self.expression()?;
        self.consume(&Token::Semicolon, "Expected ';' after variable declaration")?;
        Ok(Ast::VariableDecl { name, is_constant, initializer: Box::new(initializer) })
    }

    /// A statement, told by its first token.
    fn statement(&mut self) -> (r: Result<Ast, LoveError>)
        ensures
            node_step(
                old(self),
                final(self),
                r,
                grammar::statement(old(self).tokens(), old(self).position()),
            ),
        decreases remaining(old(self).tokens(), old(self).position()), 21nat, 0nat,
    {
        match self.peek() {
            Some(Token::Whisper) => self.print_statement(),
            Some(Token::Crush) => self.if_statement(),
            Some(Token::Dating) => self.while_statement(),
            Some(Token::Promise) => self.return_statement(),
            Some(Token::LBrace) => Ok(Ast::Block(self.block()?)),
            _ => self.expression_statement(),
        }
    }

    /// `whisper` expression `;`
    fn print_statement(&mut self) -> (r: Result<Ast, LoveError>)
        requires
            token_at(old(self).tokens(), old(self).position()) is Some,
        ensures
            node_step(
                old(self),
                final(self),
                r,
                grammar::print_statement(old(self).tokens(), old(self).position()),
            ),
        decreases remaining(old(self).tokens(), old(self).position()), 20nat, 0nat,
    {
        proof {
            reveal(grammar::print_statement);
        }
        self.advance();
        let value = self.expression()?;
        self.consume(&Token::Semicolon, "Expected ';' after value")?;
        Ok(Ast::PrintStmt(Box::new(value)))
    }

    /// `crush (` condition `)` block, then an optional `butterflies` block.
    fn if_statement(&mut self) -> (r: Result<Ast, LoveError>)
        requires
            token_at(old(self).tokens(), old(self).position()) is Some,
        ensures
            node_step(
                old(self),
                final(self),
                r,
                grammar::if_statement(old(self).tokens(), old(self).position()),
            ),
        decreases remaining(old(self).tokens(), old(self).position()), 20nat, 0nat,
    {
        self.advance();
        self.consume(&Token::LParen, "Expected '(' after 'crush'")?;
        let condition = self.expression()?;
        self.consume(&Token::RParen, "Expected ')' after condition")?;
        let then_branch = self.block()?;
        let else_branch = if let Some(Token::Butterflies) = self.peek() {
            self.advance();
            Some(self.block()?)
        } else {
            None
        };
        Ok(Ast::If { condition: Box::new(condition), then_branch, else_branch })
    }

    /// `dating (` condition `)` block
    fn while_statement(&mut self) -> (r: Result<Ast, LoveError>)
        requires
            token_at(old(self).tokens(), old(self).position()) is Some,
        ensures
            node_step(
                old(self),
                final(self),
                r,
                grammar::while_statement(old(self).tokens(), old(self).position()),
            ),
        decreases remaining(old(self).tokens(), old(self).position()), 20nat, 0nat,
    {
        self.advance();
        self.consume(&Token::LParen, "Expected '(' after 'dating'")?;
        let condition = self.expression()?;
        self.consume(&Token::RParen, "Expected ')' after condition")?;
        let body = self.block()?;
        Ok(Ast::While { condition: Box::new(condition), body })
    }

    /// An expression used as a statement: it ends with a semicolon.
    fn expression_statement(&mut self) -> (r: Result<Ast, LoveError>)
        ensures
            node_step(
                old(self),
                final(self),
                r,
                grammar::expression_statement(old(self).tokens(), old(self).position()),
            ),
        decreases remaining(old(self).tokens(), old(self).position()), 20nat, 0nat,
    {
        proof {
            reveal(grammar::expression_statement);
        }
        let expr = self.expression()?;
        self.consume(&Token::Semicolon, "Expected ';' after expression")?;
        Ok(Ast::ExpressionStmt(Box::new(expr)))
    }

    /// `{`, declarations, `}`
    fn block(&mut self) -> (r: Result<Vec<Ast>, LoveError>)
        ensures
            list_step(
                old(self),
                final(self),
                r,
                grammar::block(old(self).tokens(), old(self).position()),
            ),
        decreases remaining(old(self).tokens(), old(self).position()), 20nat, 0nat,
    {
        self.consume(&Token::LBrace, "Expected '{' before block")?;
        let statements = self.sequence(true)?;
        self.consume(&Token::RBrace, "Expected '}' after block")?;
        Ok(statements)
    }

    /// `promise` and an optional expression, then `;`
    fn return_statement(&mut self) -> (r: Result<Ast, LoveError>)
        requires
            token_at(old(self).tokens(), old(self).position()) is Some,
        ensures
            node_step(
                old(self),
                final(self),
                r,
                grammar::return_statement(old(self).tokens(), old(self).position()),
            ),
        decreases remaining(old(self).tokens(), old(self).position()), 20nat, 0nat,
    {
        proof {
            reveal(grammar::return_statement);
        }
        self.advance();
        let value = if !matches!(self.peek(), Some(Token::Semicolon)) {
            Some(Box::new(self.expression()?))
        } else {
            None
        };
        self.consume(&Token::Semicolon, "Expected ';' after return value")?;
        Ok(Ast::ReturnStmt(value))
    }

    /// `devotion` name `(` parameters `)`, an optional `->` type, and a block.
    fn function_declaration(&mut self) -> (r: Result<Ast, LoveError>)
        requires
            token_at(old(self).tokens(), old(self).position()) is Some,
        ensures
            node_step(
                old(self),
                final(self),
                r,
                grammar::function_declaration(old(self).tokens(), old(self).position()),
            ),
        decreases remaining(old(self).tokens(), old(self).position()), 20nat, 0nat,
    {
        self.advance();
        let name = match self.advance() {
            Some(Token::Identifier(name)) => name.clone(),
            _ => {
                return Err(LoveError::Parser("Expected function name".to_owned()));
            },
        };
        self.consume(&Token::LParen, "Expected '(' after function name")?;
        let params = self.parameter_list()?;
        self.consume(&Token::RParen, "Expected ')' after parameters")?;
        let return_type = self.return_type()?;
        let body = self.block()?;
        Ok(Ast::FunctionDecl { name, params, return_type, body })
    }

    /// The parameters between the parentheses of a function declaration,
    /// which may be none: each a name, `:` and a type, with commas between
    /// them.
    fn parameter_list(&mut self) -> (r: Result<Vec<(String, Type)>, LoveError>)
        ensures
            final(self).moved(
                old(self),
                grammar::parameter_list(old(self).tokens(), old(self).position()).consumed,
            ),
            match r {
                Ok(list) => grammar::parameter_list(
                    old(self).tokens(),
                    old(self).position(),
                ).result == Ok::<Seq<(Seq<char>, Type)>, Seq<char>>(view_of_params(list@)),
                Err(e) => grammar::parameter_list(
                    old(self).tokens(),
                    old(self).position(),
                ).result is Err && e@ == ErrorView::Parser(
                    grammar::parameter_list(
                        old(self).tokens(),
                        old(self).position(),
                    ).result->Err_0,
                ),
            },
    {
        let ghost tokens = self.tokens();
        let ghost start = self.position();
        let ghost whole = grammar::parameter_list(tokens, start);
        let mut params: Vec<(String, Type)> = Vec::new();
        proof {
            assert(view_of_params(params@) =~= Seq::<(Seq<char>, Type)>::empty());
        }
        let mut more = !matches!(self.peek(), Some(Token::RParen));
        while more
            invariant
                tokens == old(self).tokens(),
                start == old(self).position(),
                whole == grammar::parameter_list(tokens, start),
                self.tokens() == tokens,
                self.position() >= start,
                more ==> whole.result == grammar::parameters(
                    tokens,
                    self.position(),
                    view_of_params(params@),
                ).result,
                more ==> whole.consumed == (self.position() - start) + grammar::parameters(
                    tokens,
                    self.position(),
                    view_of_params(params@),
                ).consumed,
                !more ==> whole == grammar::done(
                    view_of_params(params@),
                    (self.position() - start) as nat,
                ),
            decreases remaining(tokens, self.position()), if more { 1nat } else { 0nat },
        {
            let ghost seen = view_of_params(params@);
            let param_name = match self.advance() {
                Some(Token::Identifier(name)) => name.clone(),
                _ => {
                    return Err(LoveError::Parser("Expected parameter name".to_owned()));
                },
            };
            match self.consume(&Token::Colon, "Expected ':' after parameter name") {
                Ok(()) => {},
                Err(e) => {
                    return Err(e);
                },
            }
            let param_type = match self.parse_type() {
                Ok(t) => t,
                Err(e) => {
                    return Err(e);
                },
            };
            let ghost added = (param_name@, param_type);
            params.push((param_name, param_type));
            proof {
                assert(view_of_params(params@) =~= seen.push(added));
            }
            if matches!(self.peek(), Some(Token::Comma)) {
                self.advance();
            } else {
                more = false;
            }
        }
        Ok(params)
    }

    /// An optional `->` and type.
    fn return_type(&mut self) -> (r: Result<Option<Type>, LoveError>)
        ensures
            final(self).moved(
                old(self),
                grammar::return_type(old(self).tokens(), old(self).position()).consumed,
            ),
            match r {
                Ok(t) => grammar::return_type(old(self).tokens(), old(self).position()).result
                    == Ok::<Option<Type>, Seq<char>>(t),
                Err(e) => grammar::return_type(
                    old(self).tokens(),
                    old(self).position(),
                ).result is Err && e@ == ErrorView::Parser(
                    grammar::return_type(old(self).tokens(), old(self).position()).result->Err_0,
                ),
            },
    {
        if let Some(Token::Arrow) = self.peek() {
            self.advance();
            Ok(Some(self.parse_type()?))
        } else {
            Ok(None)
        }
    }

    /// A type name.
    fn parse_type(&mut self) -> (r: Result<Type, LoveError>)
        ensures
            type_agrees(r, grammar::parse_type(old(self).tokens(), old(self).position()).result),
            final(self).moved(
                old(self),
                grammar::parse_type(old(self).tokens(), old(self).position()).consumed,
            ),
    {
        match self.advance() {
            Some(Token::TypeNumber) => Ok(Type::Number),
            Some(Token::TypeText) => Ok(Type::Text),
            Some(Token::TypeFeeling) => Ok(Type::Boolean),
            _ => Err(LoveError::Parser("Expected type".to_owned())),
        }
    }

    /// A literal, a name, or an expression in parentheses.
    fn primary(&mut self) -> (r: Result<Ast, LoveError>)
        ensures
            node_step(
                old(self),
                final(self),
                r,
                grammar::primary(old(self).tokens(), old(self).position()),
            ),
        decreases remaining(old(self).tokens(), old(self).position()), 0nat, 0nat,
    {
        match self.advance() {
            Some(Token::Number(n)) => Ok(literal(Value::Number(Double::from_int(*n)))),
            Some(Token::Text(s)) => Ok(literal(Value::Text(s.clone()))),
            Some(Token::Yes) => Ok(literal(Value::Boolean(true))),
            Some(Token::No) => Ok(literal(Value::Boolean(false))),
            Some(Token::LParen) => {
                let expr = match self.expression() {
                    Ok(e) => e,
                    Err(e) => {
                        return Err(e);
                    },
                };
                match self.consume(&Token::RParen, "Expected ')' after expression") {
                    Ok(()) => {},
                    Err(e) => {
                        return Err(e);
                    },
                }
                Ok(Ast::Grouping(Box::new(expr)))
            },
            Some(Token::Identifier(name)) => Ok(Ast::Variable(name.clone())),
            _ => Err(LoveError::Parser("Expected expression".to_owned())),
        }
    }

    /// Any number of `not`, then a primary.
    fn unary(&mut self) -> (r: Result<Ast, LoveError>)
        ensures
            node_step(
                old(self),
                final(self),
                r,
                grammar::unary(old(self).tokens(), old(self).position()),
            ),
        decreases remaining(old(self).tokens(), old(self).position()), 1nat, 0nat,
    {
        if let Some(Token::Not) = self.peek() {
            self.advance();
            let right = self.unary()?;
            return Ok(Ast::Unary { operator: BinaryOp::Not, operand: Box::new(right) });
        }
        self.primary()
    }

    /// An assignment, right-associative: only a bare name can stand on its
    /// left.
    fn assignment(&mut self) -> (r: Result<Ast, LoveError>)
        ensures
            node_step(
                old(self),
                final(self),
                r,
                grammar::assignment(old(self).tokens(), old(self).position()),
            ),
        decreases remaining(old(self).tokens(), old(self).position()), 14nat, 0nat,
    {
        let expr = self.or()?;
        if let Some(Token::Match) = self.peek() {
            self.advance();
            let value = self.assignment()?;
            match expr {
                Ast::Variable(name) => {
                    return Ok(Ast::Assign { name, value: Box::new(value) });
                },
                _ => {
                    return Err(LoveError::Parser("Invalid assignment target".to_owned()));
                },
            }
        }
        Ok(expr)
    }

    /// Alternatives joined by `or`, grouped from the left.
    #[verifier::loop_isolation(false)]
    fn or(&mut self) -> (r: Result<Ast, LoveError>)
        ensures
            node_step(
                old(self),
                final(self),
                r,
                grammar::binary(old(self).tokens(), old(self).position(), 0),
            ),
        decreases
            remaining(old(self).tokens(), old(self).position()),
            grammar::level_rank(0),
            2nat,
    {
        let ghost tokens = self.tokens();
        let ghost start = self.position();
        let mut expr = self.and()?;
        loop
            invariant
                self.tokens() == tokens,
                self.position() >= start,
                grammar::binary(tokens, start, 0) == grammar::after(
                    (self.position() - start) as nat,
                    grammar::binary_rest(tokens, self.position(), 0, expr@),
                ),
            decreases remaining(tokens, self.position()),
        {
            let op = match self.peek() {
                Some(Token::Or) => BinaryOp::Or,
                _ => {
                    break ;
                },
            };
            self.advance();
            let right = self.and()?;
            expr = Ast::Binary { left: Box::new(expr), operator: op, right: Box::new(right) };
        }
        Ok(expr)
    }

    /// Conditions joined by `and`, grouped from the left.
    #[verifier::loop_isolation(false)]
    fn and(&mut self) -> (r: Result<Ast, LoveError>)
        ensures
            node_step(
                old(self),
                final(self),
                r,
                grammar::binary(old(self).tokens(), old(self).position(), 1),
            ),
        decreases
            remaining(old(self).tokens(), old(self).position()),
            grammar::level_rank(1),
            2nat,
    {
        let ghost tokens = self.tokens();
        let ghost start = self.position();
        let mut expr = self.equality()?;
        loop
            invariant
                self.tokens() == tokens,
                self.position() >= start,
                grammar::binary(tokens, start, 1) == grammar::after(
                    (self.position() - start) as nat,
                    grammar::binary_rest(tokens, self.position(), 1, expr@),
                ),
            decreases remaining(tokens, self.position()),
        {
            let op = match self.peek() {
                Some(Token::And) => BinaryOp::And,
                _ => {
                    break ;
                },
            };
            self.advance();
            let right = self.equality()?;
            expr = Ast::Binary { left: Box::new(expr), operator: op, right: Box::new(right) };
        }
        Ok(expr)
    }

    /// Tests for equality, grouped from the left.
    #[verifier::loop_isolation(false)]
    fn equality(&mut self) -> (r: Result<Ast, LoveError>)
        ensures
            node_step(
                old(self),
                final(self),
                r,
                grammar::binary(old(self).tokens(), old(self).position(), 2),
            ),
        decreases
            remaining(old(self).tokens(), old(self).position()),
            grammar::level_rank(2),
            2nat,
    {
        let ghost tokens = self.tokens();
        let ghost start = self.position();
        let mut expr = self.comparison()?;
        loop
            invariant
                self.tokens() == tokens,
                self.position() >= start,
                grammar::binary(tokens, start, 2) == grammar::after(
                    (self.position() - start) as nat,
                    grammar::binary_rest(tokens, self.position(), 2, expr@),
                ),
            decreases remaining(tokens, self.position()),
        {
            let op = match self.peek() {
                Some(Token::Soulmate) => BinaryOp::Equal,
                Some(Token::NotEqual) => BinaryOp::NotEqual,
                _ => {
                    break ;
                },
            };
            self.advance();
            let right = self.comparison()?;
            expr = Ast::Binary { left: Box::new(expr), operator: op, right: Box::new(right) };
        }
        Ok(expr)
    }

    /// Tests of order, grouped from the left.
    #[verifier::loop_isolation(false)]
    fn comparison(&mut self) -> (r: Result<Ast, LoveError>)
        ensures
            node_step(
                old(self),
                final(self),
                r,
                grammar::binary(old(self).tokens(), old(self).position(), 3),
            ),
        decreases
            remaining(old(self).tokens(), old(self).position()),
            grammar::level_rank(3),
            2nat,
    {
        let ghost tokens = self.tokens();
        let ghost start = self.position();
        let mut expr = self.term()?;
        loop
            invariant
                self.tokens() == tokens,
                self.position() >= start,
                grammar::binary(tokens, start, 3) == grammar::after(
                    (self.position() - start) as nat,
                    grammar::binary_rest(tokens, self.position(), 3, expr@),
                ),
            decreases remaining(tokens, self.position()),
        {
            let op = match self.peek() {
                Some(Token::LessThan) => BinaryOp::Less,
                Some(Token::GreaterThan) => BinaryOp::Greater,
                Some(Token::LessThanEqual) => BinaryOp::LessEqual,
                Some(Token::GreaterThanEqual) => BinaryOp::GreaterEqual,
                _ => {
                    break ;
                },
            };
            self.advance();
            let right = self.term()?;
            expr = Ast::Binary { left: Box::new(expr), operator: op, right: Box::new(right) };
        }
        Ok(expr)
    }

    /// Sums and differences, grouped from the left.
    #[verifier::loop_isolation(false)]
    fn term(&mut self) -> (r: Result<Ast, LoveError>)
        ensures
            node_step(
                old(self),
                final(self),
                r,
                grammar::binary(old(self).tokens(), old(self).position(), 4),
            ),
        decreases
            remaining(old(self).tokens(), old(self).position()),
            grammar::level_rank(4),
            2nat,
    {
        let ghost tokens = self.tokens();
        let ghost start = self.position();
        let mut expr = self.factor()?;
        loop
            invariant
                self.tokens() == tokens,
                self.position() >= start,
                grammar::binary(tokens, start, 4) == grammar::after(
                    (self.position() - start) as nat,
                    grammar::binary_rest(tokens, self.position(), 4, expr@),
                ),
            decreases remaining(tokens, self.position()),
        {
            let op = match self.peek() {
                Some(Token::Cuddle) => BinaryOp::Add,
                Some(Token::Breakup) => BinaryOp::Subtract,
                _ => {
                    break ;
                },
            };
            self.advance();
            let right = self.factor()?;
            expr = Ast::Binary { left: Box::new(expr), operator: op, right: Box::new(right) };
        }
        Ok(expr)
    }

    /// Products and quotients, grouped from the left.
    #[verifier::loop_isolation(false)]
    fn factor(&mut self) -> (r: Result<Ast, LoveError>)
        ensures
            node_step(
                old(self),
                final(self),
                r,
                grammar::binary(old(self).tokens(), old(self).position(), 5),
            ),
        decreases
            remaining(old(self).tokens(), old(self).position()),
            grammar::level_rank(5),
            2nat,
    {
        let ghost tokens = self.tokens();
        let ghost start = self.position();
        let mut expr = self.unary()?;
        loop
            invariant
                self.tokens() == tokens,
                self.position() >= start,
                grammar::binary(tokens, start, 5) == grammar::after(
                    (self.position() - start) as nat,
                    grammar::binary_rest(tokens, self.position(), 5, expr@),
                ),
            decreases remaining(tokens, self.position()),
        {
            let op = match self.peek() {
                Some(Token::Kiss) => BinaryOp::Multiply,
                Some(Token::Split) => BinaryOp::Divide,
                _ => {
                    break ;
                },
            };
            self.advance();
            let right = self.unary()?;
            expr = Ast::Binary { left: Box::new(expr), operator: op, right: Box::new(right) };
        }
        Ok(expr)
    }

    /// An expression.
    fn expression(&mut self) -> (r: Result<Ast, LoveError>)
        ensures
            node_step(
                old(self),
                final(self),
                r,
                grammar::expression(old(self).tokens(), old(self).position()),
            ),
        decreases remaining(old(self).tokens(), old(self).position()), 15nat, 0nat,
    {
        self.assignment()
    }
}

} // verus!
