//! What holds of the rewriting steps, whatever they are applied to.

use vstd::prelude::*;
use super::{
    apply_record_updates_spec, attach_record_updates, class_head_spec, expr_to_pat_spec,
    exprs_to_pats_spec, instance_head_spec, normalize_app_spec,
};
use crate::ast::meta::{Located, SourceSpan};
use crate::ast::model::{ExprKindView, ExprView, PatKindView};
use crate::ast::name::QualifiedName;
use crate::ast::proper::{expr_is_proper, exprs_are_proper, fields_are_proper};
use crate::ast::types::{TypeKindView, TypeParameterView, TypeView};

verus! {

/// What the parser has after it read `f` and then one argument after the
/// other, calling [`normalize_app`] for each: `spans[i]` is the span that it
/// gave to the application of `f` to the first `i + 1` arguments. At least
/// one argument has been read.
pub open spec fn app_chain(f: ExprView, args: Seq<ExprView>, spans: Seq<SourceSpan>) -> ExprKindView
    decreases args.len(),
{
    if args.len() <= 1 {
        normalize_app_spec(f, args.last())
    } else {
        normalize_app_spec(
            Located(spans[args.len() - 2], app_chain(f, args.drop_last(), spans)),
            args.last(),
        )
    }
}

/// Whether an expression is free of an application in function position.
pub open spec fn is_flat(kind: ExprKindView) -> bool {
    kind matches ExprKindView::App(g, _) ==> !(g.1 is App)
}

/// Applying a function to its arguments one at a time gives one
/// application to all of them, in order, and never an application of an
/// application: where `f` is no application, `f a b c` is `f` applied to
/// `[a, b, c]`. Where `f` is an application already, the arguments join
/// those it has.
pub proof fn lemma_app_chain_flattens(f: ExprView, args: Seq<ExprView>, spans: Seq<SourceSpan>)
    requires
        args.len() >= 1,
    ensures
        app_chain(f, args, spans) == match f.1 {
            ExprKindView::App(g, first) => ExprKindView::App(g, first + args),
            _ => ExprKindView::App(Box::new(f), args),
        },
    decreases args.len(),
{
    if args.len() == 1 {
        assert(args == seq![args.last()]);
        if let ExprKindView::App(g, first) = f.1 {
            assert(first.push(args.last()) == first + args);
        }
    } else {
        lemma_app_chain_flattens(f, args.drop_last(), spans);
        if let ExprKindView::App(g, first) = f.1 {
            assert((first + args.drop_last()).push(args.last()) == first + args);
        } else {
            assert(args.drop_last().push(args.last()) == args);
        }
    }
}

/// The case of three arguments: `f a b c`, built one argument at a time
/// under any spans, is `f` applied to `[a, b, c]`, for every `f` that is no
/// application itself.
pub proof fn lemma_normalize_app_three(
    f: ExprView,
    a: ExprView,
    b: ExprView,
    c: ExprView,
    span_a: SourceSpan,
    span_b: SourceSpan,
)
    requires
        !(f.1 is App),
    ensures
        normalize_app_spec(
            Located(span_b, normalize_app_spec(Located(span_a, normalize_app_spec(f, a)), b)),
            c,
        ) == ExprKindView::App(Box::new(f), seq![a, b, c]),
{
    assert(seq![a].push(b).push(c) == seq![a, b, c]);
}

/// One more argument never nests an application: if the function of `f` is
/// no application, neither is the function of `f` applied to `x`.
pub proof fn lemma_normalize_app_keeps_flat(f: ExprView, x: ExprView)
    requires
        is_flat(f.1),
    ensures
        is_flat(normalize_app_spec(f, x)),
{
}

/// Where no argument is a record-update suffix, the arguments are applied
/// as they stand.
pub proof fn lemma_apply_without_record_updates(f: ExprView, args: Seq<ExprView>)
    requires
        forall|i: int| 0 <= i < args.len() ==> !(#[trigger] args[i].1 is RecordUpdateSuffix),
    ensures
        attach_record_updates(f, args) == seq![f] + args,
        apply_record_updates_spec(f, args) == ExprKindView::App(Box::new(f), args),
    decreases args.len(),
{
    if args.len() == 0 {
        assert(seq![f] + args == seq![f]);
    } else {
        lemma_apply_without_record_updates(f, args.drop_last());
        assert((seq![f] + args.drop_last()).push(args.last()) == seq![f] + args);
    }
    assert((seq![f] + args).drop_first() == args);
}

/// Attaching the record updates leaves no suffix behind: if `f` is no
/// suffix, none of the expressions that come out is one, whatever the
/// arguments were.
pub proof fn lemma_record_update_suffixes_are_attached(f: ExprView, args: Seq<ExprView>)
    requires
        !(f.1 is RecordUpdateSuffix),
    ensures
        attach_record_updates(f, args).len() >= 1,
        forall|i: int|
            0 <= i < attach_record_updates(f, args).len() ==> !(
            #[trigger] attach_record_updates(f, args)[i].1 is RecordUpdateSuffix),
    decreases args.len(),
{
    if args.len() > 0 {
        lemma_record_update_suffixes_are_attached(f, args.drop_last());
    }
}

/// The type variables `args`, as parameters without kinds.
pub open spec fn variables_as_parameters(args: Seq<TypeView>) -> Seq<TypeParameterView> {
    Seq::new(args.len(), |i: int| (args[i].1->Var_0, None::<TypeView>))
}

/// The head of a class is the head of an instance under two further
/// conditions: the name at the root is unqualified, and every argument is a
/// type variable. The parameters are then those variables, without kinds.
pub proof fn lemma_class_head_refines_instance_head(t: TypeView)
    ensures
        class_head_spec(t) == match instance_head_spec(t) {
            Some((name, args)) => if name.module is None && forall|i: int|
                0 <= i < args.len() ==> #[trigger] args[i].1 is Var {
                Some((name.name, variables_as_parameters(args)))
            } else {
                None
            },
            None => None,
        },
    decreases t,
{
    if let TypeKindView::TypeApp(f, x) = t.1 {
        lemma_class_head_refines_instance_head(*f);
        if let Some((name, inner)) = instance_head_spec(*f) {
            // The arguments are all variables exactly when those before the
            // last are and the last is.
            let args = inner.push(*x);
            let all_vars = forall|i: int| 0 <= i < args.len() ==> #[trigger] args[i].1 is Var;
            let inner_vars = forall|i: int| 0 <= i < inner.len() ==> #[trigger] inner[i].1 is Var;
            if all_vars {
                assert(args[inner.len() as int] == *x);
                assert forall|i: int| 0 <= i < inner.len() implies #[trigger] inner[i].1
                    is Var by {
                    assert(args[i] == inner[i]);
                }
            }
            assert(all_vars <==> inner_vars && x.1 is Var);
        }
    }
}

/// A list of expressions that is read as patterns gives one pattern for
/// each expression.
pub proof fn lemma_exprs_to_pats_len(es: Seq<ExprView>)
    ensures
        exprs_to_pats_spec(es) matches Ok(ps) ==> ps.len() == es.len(),
    decreases es.len(),
{
    if es.len() > 0 {
        lemma_exprs_to_pats_len(es.drop_last());
    }
}

/// Each form of expression is read as one form of pattern or is rejected:
/// a pattern keeps the span of the expression it was read from, and its
/// form is fixed by the form of the expression. Accessors, operators,
/// lambdas, `case`, `if`, `let`, `do`, `ado`, negations and record-update
/// suffixes are never read as a pattern.
pub proof fn lemma_expr_to_pat_shape(e: ExprView)
    ensures
        expr_to_pat_spec(e) matches Ok(p) ==> p.0 == e.0 && match e.1 {
            ExprKindView::Literal(_) => p.1 is Literal,
            ExprKindView::Infix(_, rest) => p.1 is Infix,
            ExprKindView::RecordUpdate(_, fields) => p.1 is Infix,
            ExprKindView::Var(name) => name.module is None && p.1 == PatKindView::Var(name.name),
            ExprKindView::DataConstructor(name) => p.1 == PatKindView::DataConstructorApp(
                name,
                Seq::empty(),
            ),
            ExprKindView::App(f, args) => f.1 matches ExprKindView::DataConstructor(name) && (
            p.1 matches PatKindView::DataConstructorApp(pat_name, pat_args) && pat_name == name
                && pat_args.len() == args.len()),
            ExprKindView::Typed(_, ty) => p.1 matches PatKindView::Typed(_, pat_ty) && pat_ty
                == ty,
            ExprKindView::Wildcard => p.1 is Wildcard,
            ExprKindView::NamedPat(name, _) => p.1 matches PatKindView::Named(pat_name, _)
                && pat_name == name,
            _ => false,
        },
{
    if let ExprKindView::App(f, args) = e.1 {
        lemma_exprs_to_pats_len(args);
    }
}

/// A data constructor applied to arguments one at a time is read as the
/// pattern of that constructor applied to the arguments read as patterns:
/// the expression `Just 1` is read as the pattern `Just 1`.
pub proof fn lemma_constructor_application_is_a_pattern(
    constructor: SourceSpan,
    name: QualifiedName,
    args: Seq<ExprView>,
    spans: Seq<SourceSpan>,
    whole: SourceSpan,
)
    requires
        args.len() >= 1,
    ensures
        expr_to_pat_spec(
            Located(
                whole,
                app_chain(Located(constructor, ExprKindView::DataConstructor(name)), args, spans),
            ),
        ) == match exprs_to_pats_spec(args) {
            Ok(pats) => Ok(Located(whole, PatKindView::DataConstructorApp(name, pats))),
            Err(message) => Err(message),
        },
{
    lemma_app_chain_flattens(
        Located(constructor, ExprKindView::DataConstructor(name)),
        args,
        spans,
    );
}

/// An application of proper expressions is proper.
pub proof fn lemma_normalize_app_keeps_proper(f: ExprView, x: ExprView, span: SourceSpan)
    requires
        expr_is_proper(f),
        expr_is_proper(x),
    ensures
        expr_is_proper(Located(span, normalize_app_spec(f, x))),
{
    match f.1 {
        ExprKindView::App(g, args) => {
            assert(exprs_are_proper(args));
            assert(exprs_are_proper(args.push(x)));
        },
        _ => {
            assert(exprs_are_proper(seq![x]));
        },
    }
}

/// Whether an argument can stand after a function before the record updates
/// are attached: a proper expression, or a record-update suffix whose
/// fields are proper.
pub open spec fn is_proper_argument(arg: ExprView) -> bool {
    match arg.1 {
        ExprKindView::RecordUpdateSuffix(fields) => fields_are_proper(fields),
        _ => expr_is_proper(arg),
    }
}

/// Attaching the record updates gives proper expressions: where the
/// function is proper and the arguments are proper but for the suffixes
/// among them, the application that comes out is proper.
pub proof fn lemma_apply_record_updates_is_proper(
    f: ExprView,
    args: Seq<ExprView>,
    span: SourceSpan,
)
    requires
        expr_is_proper(f),
        forall|i: int| 0 <= i < args.len() ==> is_proper_argument(#[trigger] args[i]),
    ensures
        exprs_are_proper(attach_record_updates(f, args)),
        expr_is_proper(Located(span, apply_record_updates_spec(f, args))),
    decreases args.len(),
{
    if args.len() > 0 {
        let before = args.drop_last();
        assert forall|i: int| 0 <= i < before.len() implies is_proper_argument(
            #[trigger] before[i],
        ) by {}
        lemma_apply_record_updates_is_proper(f, before, span);
        lemma_record_updates_keep_the_function(f, before);
    }
    let attached = attach_record_updates(f, args);
    lemma_record_updates_keep_the_function(f, args);
    assert(expr_is_proper(attached.first()));
    assert(exprs_are_proper(attached.drop_first()));
}

/// Attaching the record updates never leaves the list of expressions
/// empty.
pub proof fn lemma_record_updates_keep_the_function(f: ExprView, args: Seq<ExprView>)
    ensures
        attach_record_updates(f, args).len() >= 1,
    decreases args.len(),
{
    if args.len() > 0 {
        lemma_record_updates_keep_the_function(f, args.drop_last());
    }
}

} // verus!
