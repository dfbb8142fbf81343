//! The mathematical model of expressions and patterns.
//!
//! Every tree type has a model of the same shape, with a `Seq` wherever the
//! tree holds a `Vec` or a `String`. The contracts of the functions that
//! build and rewrite trees are stated over these models.

use vstd::prelude::*;
use super::declaration::Declaration;
use super::expr::{
    CaseBranch, DoItem, Expr, ExprKind, Guard, GuardedExpr, InfixOp, Literal, Pat, PatKind,
    PossiblyGuardedExpr,
};
use super::meta::Located;
use super::name::{QualifiedName, Symbol};
use super::types::{type_view, TypeView};

verus! {

/// The model of an [`Expr`].
pub type ExprView = Located<ExprKindView>;

/// The model of a [`Pat`].
pub type PatView = Located<PatKindView>;

/// The model of a [`Literal`] whose parts have the model `T`.
pub enum LiteralView<T> {
    Integer(u64),
    Float(u64),
    String(Seq<char>),
    Char(char),
    Boolean(bool),
    Array(Seq<T>),
    Object(Seq<(Symbol, T)>),
}

/// The model of an [`ExprKind`].
pub enum ExprKindView {
    Literal(LiteralView<ExprView>),
    Infix(Box<ExprView>, Seq<(InfixOpView, ExprView)>),
    Accessor(Box<ExprView>, Symbol),
    RecordUpdate(Box<ExprView>, Seq<(Symbol, ExprView)>),
    Var(QualifiedName),
    Operator(InfixOpView),
    DataConstructor(QualifiedName),
    App(Box<ExprView>, Seq<ExprView>),
    Lam(Seq<PatView>, Box<ExprView>),
    Case { expr: Box<ExprView>, branches: Seq<CaseBranchView> },
    If { cond: Box<ExprView>, then_: Box<ExprView>, else_: Box<ExprView> },
    Typed(Box<ExprView>, Box<TypeView>),
    Let { decls: Seq<DeclarationView>, body: Box<ExprView> },
    Wildcard,
    RecordUpdateSuffix(Seq<(Symbol, ExprView)>),
    NamedPat(Symbol, Box<ExprView>),
    Do(Seq<DoItemView>),
    Ado(Seq<DoItemView>, Box<ExprView>),
    Negate(Box<ExprView>),
}

/// The model of an [`InfixOp`].
pub enum InfixOpView {
    Symbol(Symbol),
    Backtick(Box<ExprView>),
}

/// The model of a [`DoItem`].
pub enum DoItemView {
    Let(Seq<DeclarationView>),
    Expr(ExprView),
    Bind(PatView, ExprView),
}

/// The model of a [`CaseBranch`].
pub struct CaseBranchView {
    pub pats: Seq<PatView>,
    pub expr: PossiblyGuardedExprView,
}

/// The model of a [`PossiblyGuardedExpr`].
pub enum PossiblyGuardedExprView {
    Unconditional(ExprView),
    Guarded(Seq<GuardedExprView>),
}

/// The model of a [`GuardedExpr`].
pub struct GuardedExprView {
    pub guards: Seq<GuardView>,
    pub expr: ExprView,
}

/// The model of a [`Guard`].
pub enum GuardView {
    Expr(ExprView),
    Bind(PatView, ExprView),
}

/// The model of a [`PatKind`].
pub enum PatKindView {
    Literal(LiteralView<PatView>),
    Infix(Box<PatView>, Seq<(Symbol, PatView)>),
    Var(Symbol),
    DataConstructorApp(QualifiedName, Seq<PatView>),
    Wildcard,
    Named(Symbol, Box<PatView>),
    Typed(Box<PatView>, Box<TypeView>),
}

/// The model of a [`Declaration`].
pub enum DeclarationView {
    TypeSignature { name: Symbol, type_: TypeView },
    ValueDeclaration { name: Symbol, params: Seq<PatView>, expr: PossiblyGuardedExprView },
    Destructuring { pat: PatView, expr: PossiblyGuardedExprView },
}

/// The model of a pattern.
pub open spec fn pat_view(p: Pat) -> PatView
    decreases p,
{
    Located(p.0, pat_kind_view(p.1))
}

/// The model of a pattern without its span.
pub open spec fn pat_kind_view(kind: PatKind) -> PatKindView
    decreases kind,
{
    match kind {
        PatKind::Literal(lit) => PatKindView::Literal(pat_literal_view(lit)),
        PatKind::Infix(first, rest) => PatKindView::Infix(
            Box::new(pat_view(*first)),
            pat_fields_view(rest@),
        ),
        PatKind::Var(name) => PatKindView::Var(name),
        PatKind::DataConstructorApp(name, args) => PatKindView::DataConstructorApp(
            name,
            pats_view(args@),
        ),
        PatKind::Wildcard => PatKindView::Wildcard,
        PatKind::Named(name, inner) => PatKindView::Named(name, Box::new(pat_view(*inner))),
        PatKind::Typed(inner, ty) => PatKindView::Typed(
            Box::new(pat_view(*inner)),
            Box::new(type_view(*ty)),
        ),
    }
}

/// The model of a literal in a pattern.
pub open spec fn pat_literal_view(lit: Literal<Pat>) -> LiteralView<PatView>
    decreases lit,
{
    match lit {
        Literal::Integer(n) => LiteralView::Integer(n),
        Literal::Float(bits) => LiteralView::Float(bits),
        Literal::String(s) => LiteralView::String(s@),
        Literal::Char(c) => LiteralView::Char(c),
        Literal::Boolean(b) => LiteralView::Boolean(b),
        Literal::Array(items) => LiteralView::Array(pats_view(items@)),
        Literal::Object(fields) => LiteralView::Object(pat_fields_view(fields@)),
    }
}

/// The models of a list of patterns, in order.
pub open spec fn pats_view(ps: Seq<Pat>) -> Seq<PatView>
    decreases ps,
{
    Seq::new(
        ps.len(),
        |i: int|
            if 0 <= i < ps.len() {
                pat_view(ps[i])
            } else {
                arbitrary()
            },
    )
}

/// The models of a list of labelled patterns, in order.
pub open spec fn pat_fields_view(fields: Seq<(Symbol, Pat)>) -> Seq<(Symbol, PatView)>
    decreases fields,
{
    Seq::new(
        fields.len(),
        |i: int|
            if 0 <= i < fields.len() {
                (fields[i].0, pat_view(fields[i].1))
            } else {
                arbitrary()
            },
    )
}

/// The model of an expression.
pub open spec fn expr_view(e: Expr) -> ExprView
    decreases e,
{
    Located(e.0, expr_kind_view(e.1))
}

/// The model of an expression without its span.
pub open spec fn expr_kind_view(kind: ExprKind) -> ExprKindView
    decreases kind,
{
    match kind {
        ExprKind::Literal(lit) => ExprKindView::Literal(literal_view(lit)),
        ExprKind::Infix(first, rest) => ExprKindView::Infix(
            Box::new(expr_view(*first)),
            operands_view(rest@),
        ),
        ExprKind::Accessor(record, field) => ExprKindView::Accessor(
            Box::new(expr_view(*record)),
            field,
        ),
        ExprKind::RecordUpdate(record, fields) => ExprKindView::RecordUpdate(
            Box::new(expr_view(*record)),
            fields_view(fields@),
        ),
        ExprKind::Var(name) => ExprKindView::Var(name),
        ExprKind::Operator(op) => ExprKindView::Operator(infix_op_view(op)),
        ExprKind::DataConstructor(name) => ExprKindView::DataConstructor(name),
        ExprKind::App(f, args) => ExprKindView::App(
            Box::new(expr_view(*f)),
            exprs_view(args@),
        ),
        ExprKind::Lam(pats, body) => ExprKindView::Lam(
            pats_view(pats@),
            Box::new(expr_view(*body)),
        ),
        ExprKind::Case { expr, branches } => ExprKindView::Case {
            expr: Box::new(expr_view(*expr)),
            branches: case_branches_view(branches@),
        },
        ExprKind::If { cond, then_, else_ } => ExprKindView::If {
            cond: Box::new(expr_view(*cond)),
            then_: Box::new(expr_view(*then_)),
            else_: Box::new(expr_view(*else_)),
        },
        ExprKind::Typed(inner, ty) => ExprKindView::Typed(
            Box::new(expr_view(*inner)),
            Box::new(type_view(*ty)),
        ),
        ExprKind::Let { decls, body } => ExprKindView::Let {
            decls: declarations_view(decls@),
            body: Box::new(expr_view(*body)),
        },
        ExprKind::Wildcard => ExprKindView::Wildcard,
        ExprKind::RecordUpdateSuffix(fields) => ExprKindView::RecordUpdateSuffix(
            fields_view(fields@),
        ),
        ExprKind::NamedPat(name, inner) => ExprKindView::NamedPat(
            name,
            Box::new(expr_view(*inner)),
        ),
        ExprKind::Do(items) => ExprKindView::Do(do_items_view(items@)),
        ExprKind::Ado(items, result) => ExprKindView::Ado(
            do_items_view(items@),
            Box::new(expr_view(*result)),
        ),
        ExprKind::Negate(inner) => ExprKindView::Negate(Box::new(expr_view(*inner))),
    }
}

/// The model of a literal in an expression.
pub open spec fn literal_view(lit: Literal<Expr>) -> LiteralView<ExprView>
    decreases lit,
{
    match lit {
        Literal::Integer(n) => LiteralView::Integer(n),
        Literal::Float(bits) => LiteralView::Float(bits),
        Literal::String(s) => LiteralView::String(s@),
        Literal::Char(c) => LiteralView::Char(c),
        Literal::Boolean(b) => LiteralView::Boolean(b),
        Literal::Array(items) => LiteralView::Array(exprs_view(items@)),
        Literal::Object(fields) => LiteralView::Object(fields_view(fields@)),
    }
}

/// The models of a list of expressions, in order.
pub open spec fn exprs_view(es: Seq<Expr>) -> Seq<ExprView>
    decreases es,
{
    Seq::new(
        es.len(),
        |i: int|
            if 0 <= i < es.len() {
                expr_view(es[i])
            } else {
                arbitrary()
            },
    )
}

/// The models of a list of labelled expressions, in order.
pub open spec fn fields_view(fields: Seq<(Symbol, Expr)>) -> Seq<(Symbol, ExprView)>
    decreases fields,
{
    Seq::new(
        fields.len(),
        |i: int|
            if 0 <= i < fields.len() {
                (fields[i].0, expr_view(fields[i].1))
            } else {
                arbitrary()
            },
    )
}

/// The model of an infix operator.
pub open spec fn infix_op_view(op: InfixOp) -> InfixOpView
    decreases op,
{
    match op {
        InfixOp::Symbol(name) => InfixOpView::Symbol(name),
        InfixOp::Backtick(e) => InfixOpView::Backtick(Box::new(expr_view(*e))),
    }
}

/// The models of the operators and right operands of an infix chain, in
/// order.
pub open spec fn operands_view(rest: Seq<(InfixOp, Expr)>) -> Seq<(InfixOpView, ExprView)>
    decreases rest,
{
    Seq::new(
        rest.len(),
        |i: int|
            if 0 <= i < rest.len() {
                (infix_op_view(rest[i].0), expr_view(rest[i].1))
            } else {
                arbitrary()
            },
    )
}

/// The model of a right-hand side.
pub open spec fn possibly_guarded_expr_view(rhs: PossiblyGuardedExpr) -> PossiblyGuardedExprView
    decreases rhs,
{
    match rhs {
        PossiblyGuardedExpr::Unconditional(e) => PossiblyGuardedExprView::Unconditional(
            expr_view(e),
        ),
        PossiblyGuardedExpr::Guarded(alternatives) => PossiblyGuardedExprView::Guarded(
            guarded_exprs_view(alternatives@),
        ),
    }
}

/// The model of a guarded expression.
pub open spec fn guarded_expr_view(g: GuardedExpr) -> GuardedExprView
    decreases g,
{
    GuardedExprView { guards: guards_view(g.guards@), expr: expr_view(g.expr) }
}

/// The models of a list of guarded expressions, in order.
pub open spec fn guarded_exprs_view(gs: Seq<GuardedExpr>) -> Seq<GuardedExprView>
    decreases gs,
{
    Seq::new(
        gs.len(),
        |i: int|
            if 0 <= i < gs.len() {
                guarded_expr_view(gs[i])
            } else {
                arbitrary()
            },
    )
}

/// The model of a guard.
pub open spec fn guard_view(g: Guard) -> GuardView
    decreases g,
{
    match g {
        Guard::Expr(e) => GuardView::Expr(expr_view(e)),
        Guard::Bind(p, e) => GuardView::Bind(pat_view(p), expr_view(e)),
    }
}

/// The models of a list of guards, in order.
pub open spec fn guards_view(gs: Seq<Guard>) -> Seq<GuardView>
    decreases gs,
{
    Seq::new(
        gs.len(),
        |i: int|
            if 0 <= i < gs.len() {
                guard_view(gs[i])
            } else {
                arbitrary()
            },
    )
}

/// The model of a case branch.
pub open spec fn case_branch_view(b: CaseBranch) -> CaseBranchView
    decreases b,
{
    CaseBranchView { pats: pats_view(b.pats@), expr: possibly_guarded_expr_view(b.expr) }
}

/// The models of a list of case branches, in order.
pub open spec fn case_branches_view(bs: Seq<CaseBranch>) -> Seq<CaseBranchView>
    decreases bs,
{
    Seq::new(
        bs.len(),
        |i: int|
            if 0 <= i < bs.len() {
                case_branch_view(bs[i])
            } else {
                arbitrary()
            },
    )
}

/// The model of a statement of a `do` block.
pub open spec fn do_item_view(item: DoItem) -> DoItemView
    decreases item,
{
    match item {
        DoItem::Let(decls) => DoItemView::Let(declarations_view(decls@)),
        DoItem::Expr(e) => DoItemView::Expr(expr_view(e)),
        DoItem::Bind(p, e) => DoItemView::Bind(pat_view(p), expr_view(e)),
    }
}

/// The models of the statements of a `do` block, in order.
pub open spec fn do_items_view(items: Seq<DoItem>) -> Seq<DoItemView>
    decreases items,
{
    Seq::new(
        items.len(),
        |i: int|
            if 0 <= i < items.len() {
                do_item_view(items[i])
            } else {
                arbitrary()
            },
    )
}

/// The model of a declaration.
pub open spec fn declaration_view(d: Declaration) -> DeclarationView
    decreases d,
{
    match d {
        Declaration::TypeSignature { name, type_ } => DeclarationView::TypeSignature {
            name,
            type_: type_view(type_),
        },
        Declaration::ValueDeclaration { name, params, expr } => DeclarationView::ValueDeclaration {
            name,
            params: pats_view(params@),
            expr: possibly_guarded_expr_view(expr),
        },
        Declaration::Destructuring { pat, expr } => DeclarationView::Destructuring {
            pat: pat_view(pat),
            expr: possibly_guarded_expr_view(expr),
        },
    }
}

/// The models of a list of declarations, in order.
pub open spec fn declarations_view(ds: Seq<Declaration>) -> Seq<DeclarationView>
    decreases ds,
{
    Seq::new(
        ds.len(),
        |i: int|
            if 0 <= i < ds.len() {
                declaration_view(ds[i])
            } else {
                arbitrary()
            },
    )
}

impl Literal<Expr> {
    /// The model of this literal.
    pub open spec fn view(self) -> LiteralView<ExprView> {
        literal_view(self)
    }
}

impl Literal<Pat> {
    /// The model of this literal.
    pub open spec fn view(self) -> LiteralView<PatView> {
        pat_literal_view(self)
    }
}

impl ExprKind {
    /// The model of this expression without its span.
    pub open spec fn view(self) -> ExprKindView {
        expr_kind_view(self)
    }
}

impl PatKind {
    /// The model of this pattern without its span.
    pub open spec fn view(self) -> PatKindView {
        pat_kind_view(self)
    }
}

impl CaseBranch {
    /// The model of this branch.
    pub open spec fn view(self) -> CaseBranchView {
        case_branch_view(self)
    }
}

impl PossiblyGuardedExpr {
    /// The model of this right-hand side.
    pub open spec fn view(self) -> PossiblyGuardedExprView {
        possibly_guarded_expr_view(self)
    }
}

impl Located<ExprKind> {
    /// The model of this expression.
    pub open spec fn view(self) -> ExprView {
        expr_view(self)
    }
}

impl Located<PatKind> {
    /// The model of this pattern.
    pub open spec fn view(self) -> PatView {
        pat_view(self)
    }
}

} // verus!
