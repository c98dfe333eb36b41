//! The syntax tree.
use crate::shared_types::{clone_value, BinaryOp, Type, Value, ValueView};
use vstd::prelude::*;

verus! {

/// A node of the syntax tree. A node owns its children.
#[derive(Debug, PartialEq)]
pub enum Ast {
    Program(Vec<Ast>),
    VariableDecl { name: String, is_constant: bool, initializer: Box<Ast> },
    FunctionDecl {
        name: String,
        params: Vec<(String, Type)>,
        return_type: Option<Type>,
        body: Vec<Ast>,
    },
    If { condition: Box<Ast>, then_branch: Vec<Ast>, else_branch: Option<Vec<Ast>> },
    While { condition: Box<Ast>, body: Vec<Ast> },
    Block(Vec<Ast>),
    ExpressionStmt(Box<Ast>),
    PrintStmt(Box<Ast>),
    ReturnStmt(Option<Box<Ast>>),
    Binary { left: Box<Ast>, operator: BinaryOp, right: Box<Ast> },
    Unary { operator: BinaryOp, operand: Box<Ast> },
    Assign { name: String, value: Box<Ast> },
    /// A call of the function bound to `callee`.
    Call { callee: String, arguments: Vec<Ast> },
    Variable(String),
    Literal(Value),
    Grouping(Box<Ast>),
}

/// The model of an [`Ast`]: the same tree over sequences.
pub enum AstView {
    Program(Seq<AstView>),
    VariableDecl { name: Seq<char>, is_constant: bool, initializer: Box<AstView> },
    FunctionDecl {
        name: Seq<char>,
        params: Seq<(Seq<char>, Type)>,
        return_type: Option<Type>,
        body: Seq<AstView>,
    },
    If { condition: Box<AstView>, then_branch: Seq<AstView>, else_branch: Option<Seq<AstView>> },
    While { condition: Box<AstView>, body: Seq<AstView> },
    Block(Seq<AstView>),
    ExpressionStmt(Box<AstView>),
    PrintStmt(Box<AstView>),
    ReturnStmt(Option<Box<AstView>>),
    Binary { left: Box<AstView>, operator: BinaryOp, right: Box<AstView> },
    Unary { operator: BinaryOp, operand: Box<AstView> },
    Assign { name: Seq<char>, value: Box<AstView> },
    Call { callee: Seq<char>, arguments: Seq<AstView> },
    Variable(Seq<char>),
    Literal(ValueView),
    Grouping(Box<AstView>),
}

/// The views of a list of nodes.
pub open spec fn view_of_list(list: Seq<Ast>) -> Seq<AstView>
    decreases list,
{
    Seq::new(
        list.len(),
        |i: int|
            if 0 <= i < list.len() {
                list[i].model()
            } else {
                AstView::Block(Seq::empty())
            },
    )
}

/// The views of a list of parameters.
pub open spec fn view_of_params(params: Seq<(String, Type)>) -> Seq<(Seq<char>, Type)> {
    Seq::new(params.len(), |i: int| (params[i].0@, params[i].1))
}

impl Ast {
    /// The model of this node, by recursion over the tree.
    pub open spec fn model(&self) -> AstView
        decreases self,
    {
        match self {
            Ast::Program(statements) => AstView::Program(view_of_list(statements@)),
            Ast::VariableDecl { name, is_constant, initializer } => AstView::VariableDecl {
                name: name@,
                is_constant: *is_constant,
                initializer: Box::new(initializer.model()),
            },
            Ast::FunctionDecl { name, params, return_type, body } => AstView::FunctionDecl {
                name: name@,
                params: view_of_params(params@),
                return_type: *return_type,
                body: view_of_list(body@),
            },
            Ast::If { condition, then_branch, else_branch } => AstView::If {
                condition: Box::new(condition.model()),
                then_branch: view_of_list(then_branch@),
                else_branch: match else_branch {
                    Some(statements) => Some(view_of_list(statements@)),
                    None => None,
                },
            },
            Ast::While { condition, body } => AstView::While {
                condition: Box::new(condition.model()),
                body: view_of_list(body@),
            },
            Ast::Block(statements) => AstView::Block(view_of_list(statements@)),
            Ast::ExpressionStmt(inner) => AstView::ExpressionStmt(Box::new(inner.model())),
            Ast::PrintStmt(inner) => AstView::PrintStmt(Box::new(inner.model())),
            Ast::ReturnStmt(inner) => AstView::ReturnStmt(
                match inner {
                    Some(e) => Some(Box::new(e.model())),
                    None => None,
                },
            ),
            Ast::Binary { left, operator, right } => AstView::Binary {
                left: Box::new(left.model()),
                operator: *operator,
                right: Box::new(right.model()),
            },
            Ast::Unary { operator, operand } => AstView::Unary {
                operator: *operator,
                operand: Box::new(operand.model()),
            },
            Ast::Assign { name, value } => AstView::Assign {
                name: name@,
                value: Box::new(value.model()),
            },
            Ast::Call { callee, arguments } => AstView::Call {
                callee: callee@,
                arguments: view_of_list(arguments@),
            },
            Ast::Variable(name) => AstView::Variable(name@),
            Ast::Literal(value) => AstView::Literal(value.model()),
            Ast::Grouping(inner) => AstView::Grouping(Box::new(inner.model())),
        }
    }
}

impl View for Ast {
    type V = AstView;

    open spec fn view(&self) -> AstView {
        self.model()
    }
}

/// A copy of a list of nodes.
pub fn clone_list(list: &Vec<Ast>) -> (r: Vec<Ast>)
    ensures
        view_of_list(r@) == view_of_list(list@),
    decreases list,
{
    let mut out: Vec<Ast> = Vec::new();
    let mut i: usize = 0;
    while i < list.len()
        invariant
            i <= list.len(),
            out@.len() == i,
            forall|j: int| 0 <= j < i ==> out@[j].model() == list@[j].model(),
        decreases list.len() - i,
    {
        let node = clone_ast(&list[i]);
        out.push(node);
        i += 1;
    }
    out
}

/// A copy of a list of parameters.
pub fn clone_params(params: &Vec<(String, Type)>) -> (r: Vec<(String, Type)>)
    ensures
        view_of_params(r@) == view_of_params(params@),
{
    let mut out: Vec<(String, Type)> = Vec::new();
    let mut i: usize = 0;
    while i < params.len()
        invariant
            i <= params.len(),
            out@.len() == i,
            forall|j: int| 0 <= j < i ==> out@[j].0@ == params@[j].0@ && out@[j].1 == params@[j].1,
        decreases params.len() - i,
    {
        let name = params[i].0.clone();
        let declared = params[i].1;
        out.push((name, declared));
        i += 1;
    }
    out
}

/// A copy of a node with all that hangs below it.
pub fn clone_ast(ast: &Ast) -> (r: Ast)
    ensures
        r@ == ast@,
    decreases ast,
{
    match ast {
        Ast::Program(statements) => Ast::Program(clone_list(statements)),
        Ast::VariableDecl { name, is_constant, initializer } => Ast::VariableDecl {
            name: name.clone(),
            is_constant: *is_constant,
            initializer: Box::new(clone_ast(initializer)),
        },
        Ast::FunctionDecl { name, params, return_type, body } => Ast::FunctionDecl {
            name: name.clone(),
            params: clone_params(params),
            return_type: *return_type,
            body: clone_list(body),
        },
        Ast::If { condition, then_branch, else_branch } => Ast::If {
            condition: Box::new(clone_ast(condition)),
            then_branch: clone_list(then_branch),
            else_branch: match else_branch {
                Some(statements) => Some(clone_list(statements)),
                None => None,
            },
        },
        Ast::While { condition, body } => Ast::While {
            condition: Box::new(clone_ast(condition)),
            body: clone_list(body),
        },
        Ast::Block(statements) => Ast::Block(clone_list(statements)),
        Ast::ExpressionStmt(inner) => Ast::ExpressionStmt(Box::new(clone_ast(inner))),
        Ast::PrintStmt(inner) => Ast::PrintStmt(Box::new(clone_ast(inner))),
        Ast::ReturnStmt(inner) => Ast::ReturnStmt(
            match inner {
                Some(e) => Some(Box::new(clone_ast(e))),
                None => None,
            },
        ),
        Ast::Binary { left, operator, right } => Ast::Binary {
            left: Box::new(clone_ast(left)),
            operator: *operator,
            right: Box::new(clone_ast(right)),
        },
        Ast::Unary { operator, operand } => Ast::Unary {
            operator: *operator,
            operand: Box::new(clone_ast(operand)),
        },
        Ast::Assign { name, value } => Ast::Assign {
            name: name.clone(),
            value: Box::new(clone_ast(value)),
        },
        Ast::Call { callee, arguments } => Ast::Call {
            callee: callee.clone(),
            arguments: clone_list(arguments),
        },
        Ast::Variable(name) => Ast::Variable(name.clone()),
        Ast::Literal(value) => Ast::Literal(clone_value(value)),
        Ast::Grouping(inner) => Ast::Grouping(Box::new(clone_ast(inner))),
    }
}

impl Clone for Ast {
    fn clone(&self) -> (r: Self)
        ensures
            r@ == self@,
    {
        clone_ast(self)
    }
}

} // verus!
