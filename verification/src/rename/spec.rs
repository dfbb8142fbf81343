//! What renaming means, stated over the models of the trees.

use vstd::prelude::*;
use super::scope::module_scope_spec;
use super::RenameError;
use crate::ast::meta::Located;
use crate::ast::model::{
    CaseBranchView, ExprKindView, ExprView, PatKindView, PatView, PossiblyGuardedExprView,
};
use crate::ast::name::{AbsoluteName, ModuleId, QualifiedName, Symbol};
use crate::indexed_module::{DeclId, IndexedModuleView, ValueDeclView};

verus! {

/// A rewritten node together with the failures met while rewriting it, in
/// the order in which the pass met them.
pub struct Renamed<T> {
    pub value: T,
    pub errors: Seq<RenameError>,
}

/// A local scope after a pattern has bound its variables in it, together
/// with the failures met.
pub struct Bound {
    pub scope: Set<Symbol>,
    pub errors: Seq<RenameError>,
}

/// Binds the variables of one pattern in the local scope `scope`.
///
/// A variable is added to the scope, unless the scope holds it already:
/// that is a duplicate binder. Any other pattern is not supported yet and
/// binds nothing.
pub open spec fn bind_pat_spec(scope: Set<Symbol>, p: PatView) -> Bound {
    match p.1 {
        PatKindView::Var(name) => if scope.contains(name) {
            Bound { scope, errors: seq![RenameError::DuplicateBinder { span: p.0, symbol: name }] }
        } else {
            Bound { scope: scope.insert(name), errors: Seq::empty() }
        },
        _ => Bound { scope, errors: seq![RenameError::UnsupportedPattern { span: p.0 }] },
    }
}

/// Binds the variables of a list of patterns in the local scope `scope`,
/// from left to right.
pub open spec fn bind_pats_spec(scope: Set<Symbol>, ps: Seq<PatView>) -> Bound
    decreases ps.len(),
{
    if ps.len() == 0 {
        Bound { scope, errors: Seq::empty() }
    } else {
        let before = bind_pats_spec(scope, ps.drop_last());
        let last = bind_pat_spec(before.scope, ps.last());
        Bound { scope: last.scope, errors: before.errors + last.errors }
    }
}

/// Renames an expression that stands directly in the local scope `top`,
/// in a module whose names are `scope`.
///
/// A variable without qualifier that `top` holds is local and stays as it
/// is. Any other variable that `scope` knows becomes the name of its
/// declaration, qualified by the module that owns it; one that `scope` does
/// not know is unresolved and stays as it is. A lambda opens a local scope
/// of its own, empty at first, binds its parameters there from left to
/// right and has its body renamed in that scope; what was bound outside
/// the lambda is no longer local in its body. Any other expression is not
/// supported yet and stays as it is.
pub open spec fn rename_expr_spec(
    scope: Map<QualifiedName, AbsoluteName>,
    top: Set<Symbol>,
    e: ExprView,
) -> Renamed<ExprView>
    decreases e,
{
    match e.1 {
        ExprKindView::Var(name) => if name.module is None && top.contains(name.name) {
            Renamed { value: e, errors: Seq::empty() }
        } else if scope.contains_key(name) {
            Renamed {
                value: Located(e.0, ExprKindView::Var(scope[name].to_qualified_name())),
                errors: Seq::empty(),
            }
        } else {
            Renamed { value: e, errors: seq![RenameError::UnresolvedName { span: e.0, name }] }
        },
        ExprKindView::Lam(pats, body) => {
            let params = bind_pats_spec(Set::empty(), pats);
            let inner = rename_expr_spec(scope, params.scope, *body);
            Renamed {
                value: Located(e.0, ExprKindView::Lam(pats, Box::new(inner.value))),
                errors: params.errors + inner.errors,
            }
        },
        _ => Renamed { value: e, errors: seq![RenameError::UnsupportedExpr { span: e.0 }] },
    }
}

/// Renames a right-hand side that stands directly in the local scope
/// `top`. A single expression is renamed; alternatives under guards are not
/// supported yet and stay as they are.
pub open spec fn rename_rhs_spec(
    scope: Map<QualifiedName, AbsoluteName>,
    top: Set<Symbol>,
    rhs: PossiblyGuardedExprView,
) -> Renamed<PossiblyGuardedExprView> {
    match rhs {
        PossiblyGuardedExprView::Unconditional(e) => {
            let inner = rename_expr_spec(scope, top, e);
            Renamed {
                value: PossiblyGuardedExprView::Unconditional(inner.value),
                errors: inner.errors,
            }
        },
        PossiblyGuardedExprView::Guarded(_) => Renamed {
            value: rhs,
            errors: seq![RenameError::UnsupportedGuards],
        },
    }
}

/// Renames one equation or case branch: its patterns are bound from left to
/// right in a local scope of their own, empty at first, and its right-hand
/// side is renamed in that scope.
pub open spec fn rename_branch_spec(
    scope: Map<QualifiedName, AbsoluteName>,
    branch: CaseBranchView,
) -> Renamed<CaseBranchView> {
    let params = bind_pats_spec(Set::empty(), branch.pats);
    let rhs = rename_rhs_spec(scope, params.scope, branch.expr);
    Renamed {
        value: CaseBranchView { pats: branch.pats, expr: rhs.value },
        errors: params.errors + rhs.errors,
    }
}

/// Renames the equations of a value, one after the other.
pub open spec fn rename_branches_spec(
    scope: Map<QualifiedName, AbsoluteName>,
    branches: Seq<CaseBranchView>,
) -> Renamed<Seq<CaseBranchView>>
    decreases branches.len(),
{
    if branches.len() == 0 {
        Renamed { value: Seq::empty(), errors: Seq::empty() }
    } else {
        let before = rename_branches_spec(scope, branches.drop_last());
        let last = rename_branch_spec(scope, branches.last());
        Renamed { value: before.value.push(last.value), errors: before.errors + last.errors }
    }
}

/// Renames a value: its type signature stays as it is, and its equations
/// are renamed in order.
pub open spec fn rename_value_decl_spec(
    scope: Map<QualifiedName, AbsoluteName>,
    decl: ValueDeclView,
) -> Renamed<ValueDeclView> {
    let equations = rename_branches_spec(scope, decl.equations);
    Renamed {
        value: ValueDeclView { type_: decl.type_, equations: equations.value },
        errors: equations.errors,
    }
}

/// Renames the values of a module in order. Each keeps its name.
pub open spec fn rename_values_spec(
    scope: Map<QualifiedName, AbsoluteName>,
    values: Seq<(Symbol, ValueDeclView)>,
) -> Renamed<Seq<(Symbol, ValueDeclView)>>
    decreases values.len(),
{
    if values.len() == 0 {
        Renamed { value: Seq::empty(), errors: Seq::empty() }
    } else {
        let before = rename_values_spec(scope, values.drop_last());
        let last = rename_value_decl_spec(scope, values.last().1);
        Renamed {
            value: before.value.push((values.last().0, last.value)),
            errors: before.errors + last.errors,
        }
    }
}

/// Renames a module whose names are those that `imports` brings.
pub open spec fn rename_module_spec(
    module: IndexedModuleView,
    imports: Seq<(Option<ModuleId>, DeclId)>,
) -> Renamed<IndexedModuleView> {
    let values = rename_values_spec(module_scope_spec(imports), module.values);
    Renamed { value: IndexedModuleView { values: values.value }, errors: values.errors }
}

} // verus!
