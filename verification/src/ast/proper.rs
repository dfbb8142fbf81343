//! Proper expressions: those without the forms that only the parser uses.
//!
//! While it reads, the parser builds two forms that are no expressions of
//! the language: the record-update suffix and the named pattern. It rewrites
//! both before it hands a tree on, and no later pass accepts them. An
//! expression is proper if neither form occurs anywhere in it.

use vstd::prelude::*;
use super::declaration::Declaration;
use super::expr::{
    CaseBranch, DoItem, Expr, ExprKind, Guard, GuardedExpr, InfixOp, Literal, PossiblyGuardedExpr,
};
use super::meta::Located;
use super::model::{
    case_branches_view, declarations_view, do_items_view, exprs_view, fields_view,
    guarded_exprs_view, guards_view, infix_op_view, operands_view, possibly_guarded_expr_view,
    CaseBranchView, DeclarationView, DoItemView, ExprKindView, ExprView, GuardView,
    GuardedExprView, InfixOpView, LiteralView, PossiblyGuardedExprView,
};
use super::name::Symbol;

verus! {

/// Whether an expression is, at its root, one of the forms that only the
/// parser uses.
pub open spec fn is_pseudo(kind: ExprKindView) -> bool {
    kind is RecordUpdateSuffix || kind is NamedPat
}

/// Whether no form that only the parser uses occurs anywhere in `e`.
pub open spec fn expr_is_proper(e: ExprView) -> bool
    decreases e,
{
    match e.1 {
        ExprKindView::Literal(LiteralView::Array(items)) => exprs_are_proper(items),
        ExprKindView::Literal(LiteralView::Object(fields)) => fields_are_proper(fields),
        ExprKindView::Literal(_) => true,
        ExprKindView::Infix(first, rest) => expr_is_proper(*first) && operands_are_proper(rest),
        ExprKindView::Accessor(record, _) => expr_is_proper(*record),
        ExprKindView::RecordUpdate(record, fields) => expr_is_proper(*record) && fields_are_proper(
            fields,
        ),
        ExprKindView::Var(_) => true,
        ExprKindView::Operator(op) => infix_op_is_proper(op),
        ExprKindView::DataConstructor(_) => true,
        ExprKindView::App(f, args) => expr_is_proper(*f) && exprs_are_proper(args),
        ExprKindView::Lam(_, body) => expr_is_proper(*body),
        ExprKindView::Case { expr, branches } => expr_is_proper(*expr) && branches_are_proper(
            branches,
        ),
        ExprKindView::If { cond, then_, else_ } => expr_is_proper(*cond) && expr_is_proper(*then_)
            && expr_is_proper(*else_),
        ExprKindView::Typed(inner, _) => expr_is_proper(*inner),
        ExprKindView::Let { decls, body } => declarations_are_proper(decls) && expr_is_proper(
            *body,
        ),
        ExprKindView::Wildcard => true,
        ExprKindView::RecordUpdateSuffix(_) => false,
        ExprKindView::NamedPat(_, _) => false,
        ExprKindView::Do(items) => do_items_are_proper(items),
        ExprKindView::Ado(items, result) => do_items_are_proper(items) && expr_is_proper(*result),
        ExprKindView::Negate(inner) => expr_is_proper(*inner),
    }
}

/// Whether every expression of a list is proper.
pub open spec fn exprs_are_proper(es: Seq<ExprView>) -> bool
    decreases es,
{
    forall|i: int| 0 <= i < es.len() ==> expr_is_proper(#[trigger] es[i])
}

/// Whether the expression of every field is proper.
pub open spec fn fields_are_proper(fields: Seq<(Symbol, ExprView)>) -> bool
    decreases fields,
{
    forall|i: int| 0 <= i < fields.len() ==> expr_is_proper((#[trigger] fields[i]).1)
}

/// Whether an operator is proper: a symbolic one is, one between backticks
/// is if its expression is.
pub open spec fn infix_op_is_proper(op: InfixOpView) -> bool
    decreases op,
{
    match op {
        InfixOpView::Symbol(_) => true,
        InfixOpView::Backtick(e) => expr_is_proper(*e),
    }
}

/// Whether every operator and every right operand of an infix chain is
/// proper.
pub open spec fn operands_are_proper(rest: Seq<(InfixOpView, ExprView)>) -> bool
    decreases rest,
{
    forall|i: int|
        0 <= i < rest.len() ==> infix_op_is_proper((#[trigger] rest[i]).0) && expr_is_proper(
            rest[i].1,
        )
}

/// Whether every expression of a right-hand side is proper, its guards
/// included.
pub open spec fn rhs_is_proper(rhs: PossiblyGuardedExprView) -> bool
    decreases rhs,
{
    match rhs {
        PossiblyGuardedExprView::Unconditional(e) => expr_is_proper(e),
        PossiblyGuardedExprView::Guarded(alternatives) => guarded_exprs_are_proper(alternatives),
    }
}

/// Whether the guards and the expression of a guarded expression are
/// proper.
pub open spec fn guarded_expr_is_proper(g: GuardedExprView) -> bool
    decreases g,
{
    guards_are_proper(g.guards) && expr_is_proper(g.expr)
}

/// Whether every guarded expression of a list is proper.
pub open spec fn guarded_exprs_are_proper(gs: Seq<GuardedExprView>) -> bool
    decreases gs,
{
    forall|i: int| 0 <= i < gs.len() ==> guarded_expr_is_proper(#[trigger] gs[i])
}

/// Whether the expression of a guard is proper.
pub open spec fn guard_is_proper(g: GuardView) -> bool
    decreases g,
{
    match g {
        GuardView::Expr(e) => expr_is_proper(e),
        GuardView::Bind(_, e) => expr_is_proper(e),
    }
}

/// Whether every guard of a list is proper.
pub open spec fn guards_are_proper(gs: Seq<GuardView>) -> bool
    decreases gs,
{
    forall|i: int| 0 <= i < gs.len() ==> guard_is_proper(#[trigger] gs[i])
}

/// Whether the right-hand side of every branch is proper.
pub open spec fn branches_are_proper(bs: Seq<CaseBranchView>) -> bool
    decreases bs,
{
    forall|i: int| 0 <= i < bs.len() ==> rhs_is_proper((#[trigger] bs[i]).expr)
}

/// Whether the expressions of a statement of a `do` block are proper.
pub open spec fn do_item_is_proper(item: DoItemView) -> bool
    decreases item,
{
    match item {
        DoItemView::Let(decls) => declarations_are_proper(decls),
        DoItemView::Expr(e) => expr_is_proper(e),
        DoItemView::Bind(_, e) => expr_is_proper(e),
    }
}

/// Whether every statement of a `do` block is proper.
pub open spec fn do_items_are_proper(items: Seq<DoItemView>) -> bool
    decreases items,
{
    forall|i: int| 0 <= i < items.len() ==> do_item_is_proper(#[trigger] items[i])
}

/// Whether the right-hand side of a declaration is proper. A type signature
/// has none.
pub open spec fn declaration_is_proper(d: DeclarationView) -> bool
    decreases d,
{
    match d {
        DeclarationView::TypeSignature { .. } => true,
        DeclarationView::ValueDeclaration { expr, .. } => rhs_is_proper(expr),
        DeclarationView::Destructuring { expr, .. } => rhs_is_proper(expr),
    }
}

/// Whether every declaration of a list is proper.
pub open spec fn declarations_are_proper(ds: Seq<DeclarationView>) -> bool
    decreases ds,
{
    forall|i: int| 0 <= i < ds.len() ==> declaration_is_proper(#[trigger] ds[i])
}

impl Located<ExprKind> {
    /// Whether this expression is proper: whether it is free of the forms
    /// that only the parser uses.
    pub fn is_proper(&self) -> (proper: bool)
        ensures
            proper == expr_is_proper(self@),
        decreases self,
    {
        match &self.1 {
            ExprKind::Literal(lit) => {
                assert(self@.1 == ExprKindView::Literal(lit@));
                match lit {
                    Literal::Array(items) => all_exprs_are_proper(items),
                    Literal::Object(fields) => all_fields_are_proper(fields),
                    _ => true,
                }
            },
            ExprKind::Infix(first, rest) => first.is_proper() && all_operands_are_proper(rest),
            ExprKind::Accessor(record, _) => record.is_proper(),
            ExprKind::RecordUpdate(record, fields) => record.is_proper() && all_fields_are_proper(
                fields,
            ),
            ExprKind::Var(_) => true,
            ExprKind::Operator(op) => op.is_proper(),
            ExprKind::DataConstructor(_) => true,
            ExprKind::App(f, args) => f.is_proper() && all_exprs_are_proper(args),
            ExprKind::Lam(_, body) => body.is_proper(),
            ExprKind::Case { expr, branches } => expr.is_proper() && all_branches_are_proper(
                branches,
            ),
            ExprKind::If { cond, then_, else_ } => cond.is_proper() && then_.is_proper()
                && else_.is_proper(),
            ExprKind::Typed(inner, _) => inner.is_proper(),
            ExprKind::Let { decls, body } => all_declarations_are_proper(decls)
                && body.is_proper(),
            ExprKind::Wildcard => true,
            ExprKind::RecordUpdateSuffix(_) => false,
            ExprKind::NamedPat(_, _) => false,
            ExprKind::Do(items) => all_do_items_are_proper(items),
            ExprKind::Ado(items, result) => all_do_items_are_proper(items) && result.is_proper(),
            ExprKind::Negate(inner) => inner.is_proper(),
        }
    }
}

impl InfixOp {
    /// Whether this operator is proper.
    pub fn is_proper(&self) -> (proper: bool)
        ensures
            proper == infix_op_is_proper(infix_op_view(*self)),
        decreases self,
    {
        match self {
            InfixOp::Symbol(_) => true,
            InfixOp::Backtick(e) => e.is_proper(),
        }
    }
}

impl PossiblyGuardedExpr {
    /// Whether every expression of this right-hand side is proper.
    pub fn is_proper(&self) -> (proper: bool)
        ensures
            proper == rhs_is_proper(self@),
        decreases self,
    {
        match self {
            PossiblyGuardedExpr::Unconditional(e) => e.is_proper(),
            PossiblyGuardedExpr::Guarded(alternatives) => all_guarded_exprs_are_proper(
                alternatives,
            ),
        }
    }
}

impl Declaration {
    /// Whether the right-hand side of this declaration is proper.
    pub fn is_proper(&self) -> (proper: bool)
        ensures
            proper == declaration_is_proper(crate::ast::model::declaration_view(*self)),
        decreases self,
    {
        match self {
            Declaration::TypeSignature { .. } => true,
            Declaration::ValueDeclaration { expr, .. } => expr.is_proper(),
            Declaration::Destructuring { expr, .. } => expr.is_proper(),
        }
    }
}

fn all_exprs_are_proper(es: &Vec<Expr>) -> (proper: bool)
    ensures
        proper == exprs_are_proper(exprs_view(es@)),
    decreases es,
{
    let mut i: usize = 0;
    while i < es.len()
        invariant
            0 <= i <= es.len(),
            forall|j: int| 0 <= j < i ==> expr_is_proper(#[trigger] exprs_view(es@)[j]),
        decreases es.len() - i,
    {
        if !es[i].is_proper() {
            assert(!expr_is_proper(exprs_view(es@)[i as int]));
            return false;
        }
        i += 1;
    }
    true
}

fn all_fields_are_proper(fields: &Vec<(Symbol, Expr)>) -> (proper: bool)
    ensures
        proper == fields_are_proper(fields_view(fields@)),
    decreases fields,
{
    let mut i: usize = 0;
    while i < fields.len()
        invariant
            0 <= i <= fields.len(),
            forall|j: int| 0 <= j < i ==> expr_is_proper((#[trigger] fields_view(fields@)[j]).1),
        decreases fields.len() - i,
    {
        if !fields[i].1.is_proper() {
            assert(!expr_is_proper(fields_view(fields@)[i as int].1));
            return false;
        }
        i += 1;
    }
    true
}

fn all_operands_are_proper(rest: &Vec<(InfixOp, Expr)>) -> (proper: bool)
    ensures
        proper == operands_are_proper(operands_view(rest@)),
    decreases rest,
{
    let mut i: usize = 0;
    while i < rest.len()
        invariant
            0 <= i <= rest.len(),
            forall|j: int|
                0 <= j < i ==> infix_op_is_proper((#[trigger] operands_view(rest@)[j]).0)
                    && expr_is_proper(operands_view(rest@)[j].1),
        decreases rest.len() - i,
    {
        if !rest[i].0.is_proper() || !rest[i].1.is_proper() {
            assert(!(infix_op_is_proper(operands_view(rest@)[i as int].0) && expr_is_proper(
                operands_view(rest@)[i as int].1,
            )));
            return false;
        }
        i += 1;
    }
    true
}

fn all_branches_are_proper(bs: &Vec<CaseBranch>) -> (proper: bool)
    ensures
        proper == branches_are_proper(case_branches_view(bs@)),
    decreases bs,
{
    let mut i: usize = 0;
    while i < bs.len()
        invariant
            0 <= i <= bs.len(),
            forall|j: int|
                0 <= j < i ==> rhs_is_proper((#[trigger] case_branches_view(bs@)[j]).expr),
        decreases bs.len() - i,
    {
        if !bs[i].expr.is_proper() {
            assert(!rhs_is_proper(case_branches_view(bs@)[i as int].expr));
            return false;
        }
        i += 1;
    }
    true
}

fn all_guarded_exprs_are_proper(gs: &Vec<GuardedExpr>) -> (proper: bool)
    ensures
        proper == guarded_exprs_are_proper(guarded_exprs_view(gs@)),
    decreases gs,
{
    let mut i: usize = 0;
    while i < gs.len()
        invariant
            0 <= i <= gs.len(),
            forall|j: int|
                0 <= j < i ==> guarded_expr_is_proper(#[trigger] guarded_exprs_view(gs@)[j]),
        decreases gs.len() - i,
    {
        if !all_guards_are_proper(&gs[i].guards) || !gs[i].expr.is_proper() {
            assert(!guarded_expr_is_proper(guarded_exprs_view(gs@)[i as int]));
            return false;
        }
        i += 1;
    }
    true
}

fn all_guards_are_proper(gs: &Vec<Guard>) -> (proper: bool)
    ensures
        proper == guards_are_proper(guards_view(gs@)),
    decreases gs,
{
    let mut i: usize = 0;
    while i < gs.len()
        invariant
            0 <= i <= gs.len(),
            forall|j: int| 0 <= j < i ==> guard_is_proper(#[trigger] guards_view(gs@)[j]),
        decreases gs.len() - i,
    {
        let proper = match &gs[i] {
            Guard::Expr(e) => e.is_proper(),
            Guard::Bind(_, e) => e.is_proper(),
        };
        if !proper {
            assert(!guard_is_proper(guards_view(gs@)[i as int]));
            return false;
        }
        i += 1;
    }
    true
}

fn all_do_items_are_proper(items: &Vec<DoItem>) -> (proper: bool)
    ensures
        proper == do_items_are_proper(do_items_view(items@)),
    decreases items,
{
    let mut i: usize = 0;
    while i < items.len()
        invariant
            0 <= i <= items.len(),
            forall|j: int| 0 <= j < i ==> do_item_is_proper(#[trigger] do_items_view(items@)[j]),
        decreases items.len() - i,
    {
        let proper = match &items[i] {
            DoItem::Let(decls) => all_declarations_are_proper(decls),
            DoItem::Expr(e) => e.is_proper(),
            DoItem::Bind(_, e) => e.is_proper(),
        };
        if !proper {
            assert(!do_item_is_proper(do_items_view(items@)[i as int]));
            return false;
        }
        i += 1;
    }
    true
}

fn all_declarations_are_proper(ds: &Vec<Declaration>) -> (proper: bool)
    ensures
        proper == declarations_are_proper(declarations_view(ds@)),
    decreases ds,
{
    let mut i: usize = 0;
    while i < ds.len()
        invariant
            0 <= i <= ds.len(),
            forall|j: int|
                0 <= j < i ==> declaration_is_proper(#[trigger] declarations_view(ds@)[j]),
        decreases ds.len() - i,
    {
        if !ds[i].is_proper() {
            assert(!declaration_is_proper(declarations_view(ds@)[i as int]));
            return false;
        }
        i += 1;
    }
    true
}

} // verus!
