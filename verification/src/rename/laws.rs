//! What holds of the renaming pass, whatever it is applied to.

use vstd::prelude::*;
use super::scope::{imported_name, imported_target, module_scope_spec};
use super::spec::{bind_pats_spec, rename_expr_spec, Renamed};
use super::RenameError;
use crate::ast::meta::{Located, SourceSpan};
use crate::ast::model::{ExprKindView, ExprView, PatKindView, PatView};
use crate::ast::name::{AbsoluteName, ModuleId, QualifiedName, Symbol};
use crate::ast::proper::{expr_is_proper, is_pseudo};
use crate::indexed_module::DeclId;

verus! {

/// The expression that is the variable `x`, written without qualifier.
pub open spec fn variable(span: SourceSpan, x: Symbol) -> ExprView {
    Located(span, ExprKindView::Var(QualifiedName { module: None, name: x }))
}

/// The pattern that binds the variable `x`.
pub open spec fn binder(span: SourceSpan, x: Symbol) -> PatView {
    Located(span, PatKindView::Var(x))
}

/// The lambda of one parameter.
pub open spec fn lambda(span: SourceSpan, param: PatView, body: ExprView) -> ExprView {
    Located(span, ExprKindView::Lam(seq![param], Box::new(body)))
}

/// Whether the import at `i` is the last one of `imports` that gives
/// `name`.
pub open spec fn is_last_import_of(
    imports: Seq<(Option<ModuleId>, DeclId)>,
    i: int,
    name: QualifiedName,
) -> bool {
    &&& 0 <= i < imports.len()
    &&& imported_name(imports[i]) == name
    &&& forall|j: int| i < j < imports.len() ==> imported_name(#[trigger] imports[j]) != name
}

/// The import list is the whole of the module scope: a name is known
/// exactly when some import gives it, and it refers to the declaration of
/// the last import that does.
pub proof fn lemma_module_scope_lookup(
    imports: Seq<(Option<ModuleId>, DeclId)>,
    name: QualifiedName,
)
    ensures
        module_scope_spec(imports).contains_key(name) <==> exists|i: int|
            0 <= i < imports.len() && imported_name(#[trigger] imports[i]) == name,
        module_scope_spec(imports).contains_key(name) <==> exists|i: int|
            is_last_import_of(imports, i, name),
        forall|i: int|
            is_last_import_of(imports, i, name) ==> module_scope_spec(imports)[name]
                == imported_target(imports[i]),
    decreases imports.len(),
{
    if imports.len() > 0 {
        let before = imports.drop_last();
        let last = imports.len() - 1;
        lemma_module_scope_lookup(before, name);
        assert forall|i: int| 0 <= i < before.len() implies before[i] == imports[i] by {}
        if imported_name(imports[last]) == name {
            assert(is_last_import_of(imports, last, name));
        } else if module_scope_spec(before).contains_key(name) {
            let i = choose|i: int| is_last_import_of(before, i, name);
            assert(before[i] == imports[i]);
            assert forall|j: int| i < j < imports.len() implies imported_name(
                #[trigger] imports[j],
            ) != name by {
                if j < before.len() {
                    assert(before[j] == imports[j]);
                }
            }
            assert(is_last_import_of(imports, i, name));
        } else {
            assert forall|i: int| 0 <= i < imports.len() implies imported_name(
                #[trigger] imports[i],
            ) != name by {
                if i < before.len() {
                    assert(before[i] == imports[i]);
                }
            }
        }
        assert forall|i: int| is_last_import_of(imports, i, name) implies module_scope_spec(
            imports,
        )[name] == imported_target(imports[i]) by {
            if i < last {
                assert(imported_name(imports[last]) != name);
                assert forall|j: int| i < j < before.len() implies imported_name(
                    #[trigger] before[j],
                ) != name by {
                    assert(before[j] == imports[j]);
                }
                assert(before[i] == imports[i]);
                assert(is_last_import_of(before, i, name));
            }
        }
    }
}

/// What a list of patterns binds: a local scope holds a variable after the
/// patterns are bound in it exactly when it held the variable before or one
/// of the patterns is that variable.
pub proof fn lemma_bound_variables(scope: Set<Symbol>, ps: Seq<PatView>, x: Symbol)
    ensures
        bind_pats_spec(scope, ps).scope.contains(x) <==> scope.contains(x) || exists|i: int|
            0 <= i < ps.len() && (#[trigger] ps[i]).1 == PatKindView::Var(x),
    decreases ps.len(),
{
    if ps.len() > 0 {
        let before = ps.drop_last();
        lemma_bound_variables(scope, before, x);
        assert forall|i: int| 0 <= i < before.len() implies before[i] == ps[i] by {}
        if ps.last().1 == PatKindView::Var(x) {
            assert(ps[ps.len() - 1].1 == PatKindView::Var(x));
        }
    }
}

/// A reference to a variable that the innermost local scope binds stays as
/// it is and is no failure, whatever the module scope says of its name.
pub proof fn lemma_local_reference_is_kept(
    scope: Map<QualifiedName, AbsoluteName>,
    top: Set<Symbol>,
    span: SourceSpan,
    x: Symbol,
)
    requires
        top.contains(x),
    ensures
        rename_expr_spec(scope, top, variable(span, x)) == (Renamed {
            value: variable(span, x),
            errors: Seq::empty(),
        }),
{
}

/// A reference to a parameter of the lambda whose body it is stays as it
/// is, whatever the module scope says of its name and whatever was bound
/// outside the lambda.
pub proof fn lemma_parameter_shadows_module_scope(
    scope: Map<QualifiedName, AbsoluteName>,
    top: Set<Symbol>,
    lambda: SourceSpan,
    pats: Seq<PatView>,
    reference: SourceSpan,
    x: Symbol,
)
    requires
        bind_pats_spec(Set::empty(), pats).scope.contains(x),
    ensures
        rename_expr_spec(
            scope,
            top,
            Located(lambda, ExprKindView::Lam(pats, Box::new(variable(reference, x)))),
        ) == (Renamed {
            value: Located(lambda, ExprKindView::Lam(pats, Box::new(variable(reference, x)))),
            errors: bind_pats_spec(Set::empty(), pats).errors,
        }),
{
    let params = bind_pats_spec(Set::empty(), pats);
    lemma_local_reference_is_kept(scope, params.scope, reference, x);
    assert(params.errors + Seq::<RenameError>::empty() == params.errors);
}

/// Where a lambda that binds `x` stands in another that binds `x` too, a
/// reference to `x` in the inner one is a reference to the inner binder:
/// `\x -> \x -> x` is renamed to itself without failure, in every module
/// scope and every local scope.
pub proof fn lemma_inner_binder_shadows(
    scope: Map<QualifiedName, AbsoluteName>,
    top: Set<Symbol>,
    x: Symbol,
    outer: SourceSpan,
    outer_param: SourceSpan,
    inner: SourceSpan,
    inner_param: SourceSpan,
    reference: SourceSpan,
)
    ensures
        rename_expr_spec(
            scope,
            top,
            lambda(
                outer,
                binder(outer_param, x),
                lambda(inner, binder(inner_param, x), variable(reference, x)),
            ),
        ) == (Renamed {
            value: lambda(
                outer,
                binder(outer_param, x),
                lambda(inner, binder(inner_param, x), variable(reference, x)),
            ),
            errors: Seq::empty(),
        }),
{
    reveal_with_fuel(bind_pats_spec, 2);
    let outer_pats = seq![binder(outer_param, x)];
    let inner_pats = seq![binder(inner_param, x)];
    assert(outer_pats.drop_last() == Seq::<PatView>::empty());
    assert(inner_pats.drop_last() == Seq::<PatView>::empty());
    let bound = bind_pats_spec(Set::empty(), inner_pats);
    assert(bound.scope.contains(x));
    assert(bound.errors == Seq::<RenameError>::empty());
    lemma_parameter_shadows_module_scope(scope, bound.scope, inner, inner_pats, reference, x);
    let inner_lambda = lambda(inner, binder(inner_param, x), variable(reference, x));
    assert(rename_expr_spec(scope, bound.scope, inner_lambda) == (Renamed {
        value: inner_lambda,
        errors: Seq::empty(),
    }));
    assert(bound.errors + Seq::<RenameError>::empty() == Seq::<RenameError>::empty());
}

/// Only the innermost local scope is searched. A variable that an outer
/// lambda binds and the inner one does not is looked up in the module
/// scope: in `\x -> \y -> x` with `x` and `y` different, `x` becomes the
/// absolute name that the module scope gives it, and is unresolved where
/// the module scope does not know it.
pub proof fn lemma_outer_binder_is_not_local(
    scope: Map<QualifiedName, AbsoluteName>,
    top: Set<Symbol>,
    x: Symbol,
    y: Symbol,
    outer: SourceSpan,
    outer_param: SourceSpan,
    inner: SourceSpan,
    inner_param: SourceSpan,
    reference: SourceSpan,
)
    requires
        x != y,
    ensures
        rename_expr_spec(
            scope,
            top,
            lambda(
                outer,
                binder(outer_param, x),
                lambda(inner, binder(inner_param, y), variable(reference, x)),
            ),
        ) == if scope.contains_key(QualifiedName { module: None, name: x }) {
            Renamed {
                value: lambda(
                    outer,
                    binder(outer_param, x),
                    lambda(
                        inner,
                        binder(inner_param, y),
                        Located(
                            reference,
                            ExprKindView::Var(
                                scope[QualifiedName { module: None, name: x }].to_qualified_name(),
                            ),
                        ),
                    ),
                ),
                errors: Seq::empty(),
            }
        } else {
            Renamed {
                value: lambda(
                    outer,
                    binder(outer_param, x),
                    lambda(inner, binder(inner_param, y), variable(reference, x)),
                ),
                errors: seq![
                    RenameError::UnresolvedName {
                        span: reference,
                        name: QualifiedName { module: None, name: x },
                    },
                ],
            }
        },
{
    reveal_with_fuel(bind_pats_spec, 2);
    reveal_with_fuel(rename_expr_spec, 3);
    let outer_pats = seq![binder(outer_param, x)];
    let inner_pats = seq![binder(inner_param, y)];
    assert(outer_pats.drop_last() == Seq::<PatView>::empty());
    assert(inner_pats.drop_last() == Seq::<PatView>::empty());
    let none = Seq::<RenameError>::empty();
    let bound = bind_pats_spec(Set::empty(), inner_pats);
    assert(!bound.scope.contains(x));
    assert(bound.errors == none);
    assert(bind_pats_spec(Set::empty(), outer_pats).errors == none);
    let unresolved = seq![
        RenameError::UnresolvedName {
            span: reference,
            name: QualifiedName { module: None, name: x },
        },
    ];
    assert(none + none == none);
    assert(none + unresolved == unresolved);
}

/// A variable that neither the innermost local scope nor the module scope
/// knows is reported as unresolved, and stays as it is.
pub proof fn lemma_unresolved_name_is_reported(
    scope: Map<QualifiedName, AbsoluteName>,
    top: Set<Symbol>,
    span: SourceSpan,
    name: QualifiedName,
)
    requires
        !(name.module is None && top.contains(name.name)),
        !scope.contains_key(name),
    ensures
        rename_expr_spec(scope, top, Located(span, ExprKindView::Var(name))) == (Renamed {
            value: Located(span, ExprKindView::Var(name)),
            errors: seq![RenameError::UnresolvedName { span, name }],
        }),
{
}

/// Renaming keeps proper expressions proper.
pub proof fn lemma_rename_keeps_proper(
    scope: Map<QualifiedName, AbsoluteName>,
    top: Set<Symbol>,
    e: ExprView,
)
    requires
        expr_is_proper(e),
    ensures
        expr_is_proper(rename_expr_spec(scope, top, e).value),
    decreases e,
{
    if let ExprKindView::Lam(pats, body) = e.1 {
        lemma_rename_keeps_proper(scope, bind_pats_spec(Set::empty(), pats).scope, *body);
    }
}

/// A form that only the parser uses is never renamed: it is reported as an
/// expression that is not supported, and stays as it is.
pub proof fn lemma_pseudo_expression_is_reported(
    scope: Map<QualifiedName, AbsoluteName>,
    top: Set<Symbol>,
    e: ExprView,
)
    requires
        is_pseudo(e.1),
    ensures
        rename_expr_spec(scope, top, e) == (Renamed {
            value: e,
            errors: seq![RenameError::UnsupportedExpr { span: e.0 }],
        }),
{
}

} // verus!
