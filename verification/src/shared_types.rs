//! The values of the language, their types, and the operators.
use crate::number::Double;
use crate::parser::ast::{clone_list, view_of_list, Ast, AstView};
use vstd::prelude::*;

verus! {

/// A value at run time.
#[derive(Debug, PartialEq)]
pub enum Value {
    Number(Double),
    Text(String),
    Boolean(bool),
    /// A function keeps its parameters' names and its body, and nothing of the
    /// place where it was declared.
    Function { name: String, params: Vec<String>, body: Vec<Ast> },
    Null,
}

/// The model of a [`Value`].
pub enum ValueView {
    Number(Double),
    Text(Seq<char>),
    Boolean(bool),
    Function { name: Seq<char>, params: Seq<Seq<char>>, body: Seq<AstView> },
    Null,
}

/// The operators of the language. `Not` is the one prefix operator.
#[derive(Debug, Clone, Copy, PartialEq, Eq, Structural)]
pub enum BinaryOp {
    Add,
    Subtract,
    Multiply,
    Divide,
    Equal,
    NotEqual,
    Less,
    Greater,
    LessEqual,
    GreaterEqual,
    And,
    Or,
    Not,
}

/// The type of a value, as error messages name it.
#[derive(Debug, Clone, Copy, PartialEq, Eq, Structural)]
pub enum Type {
    Number,
    Text,
    Boolean,
    Function,
}

impl Type {
    /// The name of the type in the language.
    pub open spec fn name(self) -> Seq<char> {
        match self {
            Type::Number => "number"@,
            Type::Text => "text"@,
            Type::Boolean => "feeling"@,
            Type::Function => "devotion"@,
        }
    }

    /// The name of the type in the language.
    pub fn to_string(&self) -> (s: String)
        ensures
            s@ == self.name(),
    {
        match self {
            Type::Number => "number".to_owned(),
            Type::Text => "text".to_owned(),
            Type::Boolean => "feeling".to_owned(),
            Type::Function => "devotion".to_owned(),
        }
    }
}

impl ValueView {
    /// The type of the value. The null value has no type of its own and
    /// counts as a number.
    pub open spec fn get_type(self) -> Type {
        match self {
            ValueView::Number(_) => Type::Number,
            ValueView::Text(_) => Type::Text,
            ValueView::Boolean(_) => Type::Boolean,
            ValueView::Function { .. } => Type::Function,
            ValueView::Null => Type::Number,
        }
    }

    /// What kind of value this is, as messages name it.
    pub open spec fn kind_name(self) -> Seq<char> {
        match self {
            ValueView::Number(_) => "number"@,
            ValueView::Text(_) => "text"@,
            ValueView::Boolean(_) => "feeling"@,
            ValueView::Function { .. } => "devotion"@,
            ValueView::Null => "lonely"@,
        }
    }
}

/// The views of a list of names.
pub open spec fn view_of_names(names: Seq<String>) -> Seq<Seq<char>> {
    Seq::new(names.len(), |i: int| names[i]@)
}

impl Value {
    /// The model of this value, by recursion over the body of a function.
    pub open spec fn model(&self) -> ValueView
        decreases self,
    {
        match self {
            Value::Number(n) => ValueView::Number(*n),
            Value::Text(s) => ValueView::Text(s@),
            Value::Boolean(b) => ValueView::Boolean(*b),
            Value::Function { name, params, body } => ValueView::Function {
                name: name@,
                params: view_of_names(params@),
                body: view_of_list(body@),
            },
            Value::Null => ValueView::Null,
        }
    }
}

impl Value {
    /// The type of the value. The null value has no type of its own and
    /// counts as a number.
    pub fn get_type(&self) -> (t: Type)
        ensures
            t == self@.get_type(),
    {
        match self {
            Value::Number(_) => Type::Number,
            Value::Text(_) => Type::Text,
            Value::Boolean(_) => Type::Boolean,
            Value::Function { .. } => Type::Function,
            Value::Null => Type::Number,
        }
    }

    /// What kind of value this is, as messages name it.
    pub fn to_string(&self) -> (s: String)
        ensures
            s@ == self@.kind_name(),
    {
        match self {
            Value::Number(_) => "number".to_owned(),
            Value::Text(_) => "text".to_owned(),
            Value::Boolean(_) => "feeling".to_owned(),
            Value::Function { .. } => "devotion".to_owned(),
            Value::Null => "lonely".to_owned(),
        }
    }
}

impl View for Value {
    type V = ValueView;

    open spec fn view(&self) -> ValueView {
        self.model()
    }
}

/// A copy of a list of names.
pub fn clone_names(names: &Vec<String>) -> (r: Vec<String>)
    ensures
        view_of_names(r@) == view_of_names(names@),
{
    let mut out: Vec<String> = Vec::new();
    let mut i: usize = 0;
    while i < names.len()
        invariant
            i <= names.len(),
            out@.len() == i,
            forall|j: int| 0 <= j < i ==> out@[j]@ == names@[j]@,
        decreases names.len() - i,
    {
        let name = names[i].clone();
        out.push(name);
        i += 1;
    }
    out
}

/// A copy of a value; of a function, with its whole body.
pub fn clone_value(value: &Value) -> (r: Value)
    ensures
        r@ == value@,
    decreases value,
{
    match value {
        Value::Number(n) => Value::Number(*n),
        Value::Text(s) => Value::Text(s.clone()),
        Value::Boolean(b) => Value::Boolean(*b),
        Value::Function { name, params, body } => Value::Function {
            name: name.clone(),
            params: clone_names(params),
            body: clone_list(body),
        },
        Value::Null => Value::Null,
    }
}

impl Clone for Value {
    fn clone(&self) -> (r: Self)
        ensures
            r@ == self@,
    {
        clone_value(self)
    }
}

} // verus!
