//! The syntax tree that the analyzer walks: programs, contracts, functions,
//! statements and expressions, as a frontend hands them over after parsing.
//! The analyzer never mutates a tree; it only reads its shape.

use vstd::prelude::*;

verus! {

/// A source location, used only to attach a position to a warning.
#[derive(Clone, Copy, PartialEq, Eq, Structural, Debug)]
pub struct Span {
    pub start: usize,
    pub end: usize,
}

impl Span {
    pub fn new(start: usize, end: usize) -> (s: Span)
        ensures
            s.start == start,
            s.end == end,
    {
        Span { start, end }
    }
}

/// A binary operator. Only assignment and the three arithmetic operators
/// add, subtract and multiply are of interest to the analyzer; the rest are
/// carried through untouched.
#[derive(Clone, Copy, PartialEq, Eq, Structural, Debug)]
pub enum BinaryOp {
    Add,
    Sub,
    Mul,
    Div,
    Eq,
    Lt,
    And,
    Or,
    Assign,
}

/// An expression together with its source location.
#[derive(Debug)]
pub struct Expression {
    pub kind: ExpressionKind,
    pub span: Span,
}

/// One arm of a match expression; only the arm's body is walked.
#[derive(Debug)]
pub struct MatchArm {
    pub pattern: String,
    pub body: Expression,
}

#[derive(Debug)]
pub enum ExpressionKind {
    Identifier(String),
    IntLiteral(u64),
    Binary { left: Box<Expression>, op: BinaryOp, right: Box<Expression> },
    Call { func: Box<Expression>, args: Vec<Expression> },
    FieldAccess { expr: Box<Expression>, field: String },
    Index { expr: Box<Expression>, index: Box<Expression> },
    Match { value: Box<Expression>, arms: Vec<MatchArm> },
    StructInit { name: String, fields: Vec<(String, Expression)> },
    Try(Box<Expression>),
    GenericInst { target: Box<Expression>, type_args: Vec<String> },
}

/// A statement together with its source location.
#[derive(Debug)]
pub struct Statement {
    pub kind: StatementKind,
    pub span: Span,
}

#[derive(Debug)]
pub enum StatementKind {
    Let { name: String, init: Expression },
    Expr(Expression),
    Return(Option<Expression>),
    If { condition: Expression, then_branch: Block, else_branch: Option<Block> },
    While { condition: Expression, body: Block },
    For { var: String, start: Expression, end: Expression, body: Block },
    Break,
}

/// A brace-delimited list of statements.
#[derive(Debug)]
pub struct Block {
    pub stmts: Vec<Statement>,
}

/// A named function with a body; free functions and contract methods share
/// this shape.
#[derive(Debug)]
pub struct Function {
    pub name: String,
    pub body: Block,
}

/// A named, typed storage slot declared in a contract; only the name is
/// consulted by the analyzer.
#[derive(Debug)]
pub struct StorageField {
    pub name: String,
    pub ty: String,
}

#[derive(Debug)]
pub enum ContractMember {
    Storage(Vec<StorageField>),
    Init(Function),
    Function(Function),
    Event(String),
}

/// A contract declaration: a name and its members in declaration order.
#[derive(Debug)]
pub struct Contract {
    pub name: String,
    pub members: Vec<ContractMember>,
}

#[derive(Debug)]
pub enum Item {
    Contract(Contract),
    Function(Function),
    Import(String),
}

/// A whole parsed program: its top-level items in declaration order.
#[derive(Debug)]
pub struct Program {
    pub items: Vec<Item>,
}

} // verus!
