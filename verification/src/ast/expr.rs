//! Expressions and patterns.

use vstd::prelude::*;
use super::declaration::Declaration;
use super::meta::Located;
use super::name::{QualifiedName, Symbol};
use super::types::Type;

verus! {

/// An expression with its span.
pub type Expr = Located<ExprKind>;

/// The fields of a record update, in source order.
pub type RecordUpdate = Vec<(Symbol, Expr)>;

/// The shapes an expression can have.
///
/// Two of them, [`ExprKind::RecordUpdateSuffix`] and [`ExprKind::NamedPat`],
/// are not expressions of the language: the parser builds them where it
/// cannot yet tell what it is reading, and rewrites them before it hands a
/// tree on. No later pass accepts them.
#[derive(Debug, PartialEq, Eq)]
pub enum ExprKind {
    Literal(Literal<Expr>),
    /// A chain of operands joined by infix operators. Precedence is not yet
    /// known: the chain is flat, the first operand and then each operator
    /// with the operand to its right.
    Infix(Box<Expr>, Vec<(InfixOp, Expr)>),
    /// Record field access, `record.field`.
    Accessor(Box<Expr>, Symbol),
    /// `record { field = value, .. }`.
    RecordUpdate(Box<Expr>, RecordUpdate),
    Var(QualifiedName),
    /// An operator standing alone, as in `(+)`.
    Operator(InfixOp),
    DataConstructor(QualifiedName),
    /// A function applied to all its arguments at once. The function is
    /// never itself an application built by the parser.
    App(Box<Expr>, Vec<Expr>),
    Lam(Vec<Pat>, Box<Expr>),
    Case { expr: Box<Expr>, branches: Vec<CaseBranch> },
    If { cond: Box<Expr>, then_: Box<Expr>, else_: Box<Expr> },
    /// `expression :: type`.
    Typed(Box<Expr>, Box<Type>),
    Let { decls: Vec<Declaration>, body: Box<Expr> },
    Wildcard,
    /// Parser-internal: the `{ field = value, .. }` that follows an
    /// expression, before it is attached to that expression.
    RecordUpdateSuffix(RecordUpdate),
    /// Parser-internal: `name@expression`, read before the parser knows
    /// that it stands in a pattern.
    NamedPat(Symbol, Box<Expr>),
    Do(Vec<DoItem>),
    Ado(Vec<DoItem>, Box<Expr>),
    Negate(Box<Expr>),
}

/// An infix operator: a symbolic one, or an expression between backticks.
#[derive(Debug, PartialEq, Eq)]
pub enum InfixOp {
    Symbol(Symbol),
    Backtick(Box<Expr>),
}

/// One statement of a `do` or `ado` block.
#[derive(Debug, PartialEq, Eq)]
pub enum DoItem {
    Let(Vec<Declaration>),
    Expr(Expr),
    /// `pattern <- expression`.
    Bind(Pat, Expr),
}

/// What stands between braces after the parser has read it and before it
/// knows the context: the fields of a record literal (`field: value`) or
/// of a record update (`field = value`).
#[derive(Debug, PartialEq, Eq)]
pub enum RecordLiteralOrUpdate {
    Literal(Vec<(Symbol, Expr)>),
    Update(Vec<(Symbol, Expr)>),
}

/// One alternative of a `case`, or one equation of a function: the patterns
/// to match, at least one for a `case`, and what to evaluate on a match.
#[derive(Debug, PartialEq, Eq)]
pub struct CaseBranch {
    pub pats: Vec<Pat>,
    pub expr: PossiblyGuardedExpr,
}

/// A right-hand side: one expression, or alternatives under guards that are
/// tried in order.
#[derive(Debug, PartialEq, Eq)]
pub enum PossiblyGuardedExpr {
    Unconditional(Expr),
    Guarded(Vec<GuardedExpr>),
}

/// An expression that counts only if all its guards hold.
#[derive(Debug, PartialEq, Eq)]
pub struct GuardedExpr {
    pub guards: Vec<Guard>,
    pub expr: Expr,
}

/// A guard: a boolean expression, or a pattern that an expression has to
/// match.
#[derive(Debug, PartialEq, Eq)]
pub enum Guard {
    Expr(Expr),
    Bind(Pat, Expr),
}

/// A pattern with its span.
pub type Pat = Located<PatKind>;

/// The shapes a pattern can have.
#[derive(Debug, PartialEq, Eq)]
pub enum PatKind {
    Literal(Literal<Pat>),
    /// A chain of patterns joined by infix operators, flat as in
    /// [`ExprKind::Infix`].
    Infix(Box<Pat>, Vec<(Symbol, Pat)>),
    /// A variable that the pattern binds.
    Var(Symbol),
    /// A data constructor applied to patterns, none for a constant.
    DataConstructorApp(QualifiedName, Vec<Pat>),
    Wildcard,
    /// `name@pattern`.
    Named(Symbol, Box<Pat>),
    /// `pattern :: type`.
    Typed(Box<Pat>, Box<Type>),
}

/// A literal whose parts are of type `T`: expressions in an expression,
/// patterns in a pattern.
#[derive(Debug, PartialEq, Eq)]
pub enum Literal<T> {
    Integer(u64),
    /// A floating-point number, held as the bits of its IEEE 754 double.
    Float(u64),
    String(String),
    Char(char),
    Boolean(bool),
    Array(Vec<T>),
    /// The fields of a record in source order.
    Object(Vec<(Symbol, T)>),
}

} // verus!
