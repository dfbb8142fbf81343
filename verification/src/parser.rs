//! The rewriting steps that the grammar calls while it reduces.
//!
//! A context-free grammar cannot decide some shapes by itself: whether what
//! it has read is an expression or a pattern, where a record update
//! attaches, how far an application reaches. The functions here settle
//! those shapes. Each is a function of its arguments alone, and each failure
//! is a message for the caller to report at the position it is reading.

use vstd::prelude::*;
use crate::ast::expr::{Expr, ExprKind, InfixOp, Literal, Pat, PatKind};
use crate::ast::meta::Located;
use crate::ast::model::{
    expr_view, exprs_view, fields_view, infix_op_view, operands_view, pat_fields_view, pat_view,
    pats_view, ExprKindView, ExprView, InfixOpView, LiteralView, PatKindView, PatView,
};
use crate::ast::name::{QualifiedName, Symbol};
use crate::ast::types::{
    type_parameter_view, type_parameters_view, type_view, types_view, Type, TypeKind,
    TypeKindView, TypeParameter, TypeParameterView, TypeView,
};

pub mod laws;

verus! {

/// The application of `f` to one more argument `x`.
///
/// An application takes all its arguments at once: where `f` is already an
/// application, `x` joins its arguments; otherwise `f` is applied to `x`
/// alone.
pub open spec fn normalize_app_spec(f: ExprView, x: ExprView) -> ExprKindView {
    match f.1 {
        ExprKindView::App(g, args) => ExprKindView::App(g, args.push(x)),
        _ => ExprKindView::App(Box::new(f), seq![x]),
    }
}

/// The expressions that `f` and `args` come to once each record-update
/// suffix among `args` is attached to the expression before it.
///
/// The list starts as `f` alone. Each argument in turn is added at its end,
/// unless it is a suffix: then the last expression of the list becomes the
/// record that the suffix updates, under the suffix's span. The list is
/// never empty.
pub open spec fn attach_record_updates(f: ExprView, args: Seq<ExprView>) -> Seq<ExprView>
    decreases args.len(),
{
    if args.len() == 0 {
        seq![f]
    } else {
        let before = attach_record_updates(f, args.drop_last());
        let arg = args.last();
        match arg.1 {
            ExprKindView::RecordUpdateSuffix(fields) => before.drop_last().push(
                Located(arg.0, ExprKindView::RecordUpdate(Box::new(before.last()), fields)),
            ),
            _ => before.push(arg),
        }
    }
}

/// The application that `f` followed by `args` stands for, where some of
/// `args` may be record-update suffixes: the first of the expressions of
/// [`attach_record_updates`] applied to the others.
pub open spec fn apply_record_updates_spec(f: ExprView, args: Seq<ExprView>) -> ExprKindView {
    let attached = attach_record_updates(f, args);
    ExprKindView::App(Box::new(attached.first()), attached.drop_first())
}

/// The head of an instance: the class or type at the root of a chain of
/// type applications, and the arguments of the chain from left to right.
/// There is none where the root is anything but a constructor.
pub open spec fn instance_head_spec(t: TypeView) -> Option<(QualifiedName, Seq<TypeView>)>
    decreases t,
{
    match t.1 {
        TypeKindView::TypeConstructor(name) => Some((name, Seq::empty())),
        TypeKindView::TypeApp(f, x) => match instance_head_spec(*f) {
            Some((name, args)) => Some((name, args.push(*x))),
            None => None,
        },
        _ => None,
    }
}

/// The head of a class declaration: the unqualified class name at the root
/// of a chain of type applications, and the type variables that the chain
/// applies it to, from left to right and without kinds. There is none where
/// the root is anything but an unqualified constructor, or where an
/// argument is anything but a variable.
pub open spec fn class_head_spec(t: TypeView) -> Option<(Symbol, Seq<TypeParameterView>)>
    decreases t,
{
    match t.1 {
        TypeKindView::TypeConstructor(name) => if name.module is Some {
            None
        } else {
            Some((name.name, Seq::empty()))
        },
        TypeKindView::TypeApp(f, x) => match (x.1, class_head_spec(*f)) {
            (TypeKindView::Var(v), Some((name, params))) => Some(
                (name, params.push((v, None::<TypeView>))),
            ),
            _ => None,
        },
        _ => None,
    }
}

/// The model of what [`constraint_to_instance_head`] returns.
pub open spec fn instance_head_view(head: Option<(QualifiedName, Vec<Type>)>) -> Option<
    (QualifiedName, Seq<TypeView>),
> {
    match head {
        Some((name, args)) => Some((name, types_view(args@))),
        None => None,
    }
}

/// The model of what [`constraint_to_class_head`] returns.
pub open spec fn class_head_view(head: Option<(Symbol, Vec<TypeParameter>)>) -> Option<
    (Symbol, Seq<TypeParameterView>),
> {
    match head {
        Some((name, params)) => Some((name, type_parameters_view(params@))),
        None => None,
    }
}

/// The pattern that an expression stands for, or why it stands for none.
///
/// Literals, infix chains, unqualified variables, data constructors alone or
/// applied, type ascriptions, wildcards and named patterns are read as the
/// pattern of the same shape, part by part. A record update is read as an
/// infix chain whose operators are the field names. Everything else is
/// rejected with a message that names the construct. Where several parts are
/// rejected, the message is that of the leftmost.
pub open spec fn expr_to_pat_spec(e: ExprView) -> Result<PatView, Seq<char>>
    decreases e,
{
    match e.1 {
        ExprKindView::Literal(lit) => match lit_expr_to_pat_spec(lit) {
            Ok(l) => Ok(Located(e.0, PatKindView::Literal(l))),
            Err(msg) => Err(msg),
        },
        ExprKindView::Infix(first, rest) => match expr_to_pat_spec(*first) {
            Ok(p) => match operands_to_pats_spec(rest) {
                Ok(ps) => Ok(Located(e.0, PatKindView::Infix(Box::new(p), ps))),
                Err(msg) => Err(msg),
            },
            Err(msg) => Err(msg),
        },
        ExprKindView::Accessor(_, _) => Err("Illegal record accessor in pattern"@),
        ExprKindView::RecordUpdate(record, fields) => match expr_to_pat_spec(*record) {
            Ok(p) => match fields_to_pats_spec(fields) {
                Ok(ps) => Ok(Located(e.0, PatKindView::Infix(Box::new(p), ps))),
                Err(msg) => Err(msg),
            },
            Err(msg) => Err(msg),
        },
        ExprKindView::Var(name) => if name.module is Some {
            Err("Illegal qualified name in pattern"@)
        } else {
            Ok(Located(e.0, PatKindView::Var(name.name)))
        },
        ExprKindView::Operator(_) => Err("Illegal operator in pattern"@),
        ExprKindView::DataConstructor(name) => Ok(
            Located(e.0, PatKindView::DataConstructorApp(name, Seq::empty())),
        ),
        ExprKindView::App(f, args) => match f.1 {
            ExprKindView::DataConstructor(name) => match exprs_to_pats_spec(args) {
                Ok(ps) => Ok(Located(e.0, PatKindView::DataConstructorApp(name, ps))),
                Err(msg) => Err(msg),
            },
            _ => Err("illegal pattern in data constructor position"@),
        },
        ExprKindView::Lam(_, _) => Err("Illegal lambda in pattern"@),
        ExprKindView::Case { .. } => Err("Illegal case in pattern"@),
        ExprKindView::If { .. } => Err("Illegal if in pattern"@),
        ExprKindView::Typed(inner, ty) => match expr_to_pat_spec(*inner) {
            Ok(p) => Ok(Located(e.0, PatKindView::Typed(Box::new(p), ty))),
            Err(msg) => Err(msg),
        },
        ExprKindView::Let { .. } => Err("Illegal let in pattern"@),
        ExprKindView::Wildcard => Ok(Located(e.0, PatKindView::Wildcard)),
        ExprKindView::RecordUpdateSuffix(_) => Err("Illegal record update in pattern"@),
        ExprKindView::NamedPat(name, inner) => match expr_to_pat_spec(*inner) {
            Ok(p) => Ok(Located(e.0, PatKindView::Named(name, Box::new(p)))),
            Err(msg) => Err(msg),
        },
        ExprKindView::Do(_) => Err("Illegal do in pattern"@),
        ExprKindView::Ado(_, _) => Err("Illegal ado in pattern"@),
        ExprKindView::Negate(_) => Err("Illegal negation in pattern"@),
    }
}

/// The pattern literal that an expression literal stands for: the same
/// literal, with each element of an array and each field of an object read
/// as a pattern.
pub open spec fn lit_expr_to_pat_spec(lit: LiteralView<ExprView>) -> Result<
    LiteralView<PatView>,
    Seq<char>,
>
    decreases lit,
{
    match lit {
        LiteralView::Integer(n) => Ok(LiteralView::Integer(n)),
        LiteralView::Float(bits) => Ok(LiteralView::Float(bits)),
        LiteralView::String(s) => Ok(LiteralView::String(s)),
        LiteralView::Char(c) => Ok(LiteralView::Char(c)),
        LiteralView::Boolean(b) => Ok(LiteralView::Boolean(b)),
        LiteralView::Array(items) => match exprs_to_pats_spec(items) {
            Ok(ps) => Ok(LiteralView::Array(ps)),
            Err(msg) => Err(msg),
        },
        LiteralView::Object(fields) => match fields_to_pats_spec(fields) {
            Ok(ps) => Ok(LiteralView::Object(ps)),
            Err(msg) => Err(msg),
        },
    }
}

/// The patterns that a list of expressions stands for, in order, or the
/// message of the first expression that stands for none.
pub open spec fn exprs_to_pats_spec(es: Seq<ExprView>) -> Result<Seq<PatView>, Seq<char>>
    decreases es,
{
    if es.len() == 0 {
        Ok(Seq::empty())
    } else {
        match exprs_to_pats_spec(es.drop_last()) {
            Ok(ps) => match expr_to_pat_spec(es.last()) {
                Ok(p) => Ok(ps.push(p)),
                Err(msg) => Err(msg),
            },
            Err(msg) => Err(msg),
        }
    }
}

/// The labelled patterns that a list of labelled expressions stands for, in
/// order and under the same labels, or the message of the first expression
/// that stands for none.
pub open spec fn fields_to_pats_spec(fields: Seq<(Symbol, ExprView)>) -> Result<
    Seq<(Symbol, PatView)>,
    Seq<char>,
>
    decreases fields,
{
    if fields.len() == 0 {
        Ok(Seq::empty())
    } else {
        match fields_to_pats_spec(fields.drop_last()) {
            Ok(ps) => match expr_to_pat_spec(fields.last().1) {
                Ok(p) => Ok(ps.push((fields.last().0, p))),
                Err(msg) => Err(msg),
            },
            Err(msg) => Err(msg),
        }
    }
}

/// The operators and right operands of an infix chain, read as those of a
/// pattern chain. Only a symbolic operator can stand in a pattern; an
/// operator between backticks is rejected before its operand is read.
pub open spec fn operands_to_pats_spec(rest: Seq<(InfixOpView, ExprView)>) -> Result<
    Seq<(Symbol, PatView)>,
    Seq<char>,
>
    decreases rest,
{
    if rest.len() == 0 {
        Ok(Seq::empty())
    } else {
        match operands_to_pats_spec(rest.drop_last()) {
            Ok(ps) => match rest.last().0 {
                InfixOpView::Symbol(op) => match expr_to_pat_spec(rest.last().1) {
                    Ok(p) => Ok(ps.push((op, p))),
                    Err(msg) => Err(msg),
                },
                InfixOpView::Backtick(_) => Err("Illegal backtick operator in pattern"@),
            },
            Err(msg) => Err(msg),
        }
    }
}

/// The model of what [`expr_to_pat`] returns.
pub open spec fn pat_result_view(r: Result<Pat, String>) -> Result<PatView, Seq<char>> {
    match r {
        Ok(p) => Ok(pat_view(p)),
        Err(msg) => Err(msg@),
    }
}

/// The model of what [`lit_expr_to_pat`] returns.
pub open spec fn literal_result_view(r: Result<Literal<Pat>, String>) -> Result<
    LiteralView<PatView>,
    Seq<char>,
> {
    match r {
        Ok(lit) => Ok(lit@),
        Err(msg) => Err(msg@),
    }
}

/// Reads an expression as a pattern.
///
/// The grammar calls this where it has read an expression and then finds
/// that a pattern was meant: in the parameters of a lambda, the branches of
/// a `case`, the binders of `let` and `do`.
pub fn expr_to_pat(expr: Expr) -> (result: Result<Pat, String>)
    ensures
        pat_result_view(result) == expr_to_pat_spec(expr@),
    decreases expr,
{
    let Located(span, kind) = expr;
    Ok(
        Located(
            span,
            match kind {
                ExprKind::Literal(lit) => PatKind::Literal(lit_expr_to_pat(lit)?),
                ExprKind::Infix(first, rest) => {
                    let first_pat = expr_to_pat(*first)?;
                    PatKind::Infix(Box::new(first_pat), operands_to_pats(rest)?)
                },
                ExprKind::Accessor(_, _) => {
                    return Err("Illegal record accessor in pattern".to_owned());
                },
                ExprKind::RecordUpdate(record, fields) => {
                    let record_pat = expr_to_pat(*record)?;
                    PatKind::Infix(Box::new(record_pat), fields_to_pats(fields)?)
                },
                ExprKind::Var(name) => {
                    if name.is_actually_qualified() {
                        return Err("Illegal qualified name in pattern".to_owned());
                    } else {
                        PatKind::Var(name.name)
                    }
                },
                ExprKind::Operator(_) => {
                    return Err("Illegal operator in pattern".to_owned());
                },
                ExprKind::DataConstructor(name) => {
                    let no_args: Vec<Pat> = Vec::new();
                    assert(pats_view(no_args@) == Seq::<PatView>::empty());
                    PatKind::DataConstructorApp(name, no_args)
                },
                ExprKind::App(f, args) => {
                    let head = f.into_inner();
                    assert(expr_view(*f).1 == head@);
                    match head {
                        ExprKind::DataConstructor(name) => PatKind::DataConstructorApp(
                            name,
                            exprs_to_pats(args)?,
                        ),
                        _ => {
                            return Err("illegal pattern in data constructor position".to_owned());
                        },
                    }
                },
                ExprKind::Lam(_, _) => {
                    return Err("Illegal lambda in pattern".to_owned());
                },
                ExprKind::Case { .. } => {
                    return Err("Illegal case in pattern".to_owned());
                },
                ExprKind::If { .. } => {
                    return Err("Illegal if in pattern".to_owned());
                },
                ExprKind::Typed(inner, ty) => PatKind::Typed(Box::new(expr_to_pat(*inner)?), ty),
                ExprKind::Let { .. } => {
                    return Err("Illegal let in pattern".to_owned());
                },
                ExprKind::Wildcard => PatKind::Wildcard,
                ExprKind::RecordUpdateSuffix(_) => {
                    return Err("Illegal record update in pattern".to_owned());
                },
                ExprKind::NamedPat(name, inner) => PatKind::Named(
                    name,
                    Box::new(expr_to_pat(*inner)?),
                ),
                ExprKind::Do(_) => {
                    return Err("Illegal do in pattern".to_owned());
                },
                ExprKind::Ado(_, _) => {
                    return Err("Illegal ado in pattern".to_owned());
                },
                ExprKind::Negate(_) => {
                    return Err("Illegal negation in pattern".to_owned());
                },
            },
        ),
    )
}

/// Reads the literal of an expression as the literal of a pattern.
pub fn lit_expr_to_pat(lit: Literal<Expr>) -> (result: Result<Literal<Pat>, String>)
    ensures
        literal_result_view(result) == lit_expr_to_pat_spec(lit@),
    decreases lit,
{
    Ok(
        match lit {
            Literal::Integer(x) => Literal::Integer(x),
            Literal::Float(x) => Literal::Float(x),
            Literal::String(x) => Literal::String(x),
            Literal::Char(x) => Literal::Char(x),
            Literal::Boolean(x) => Literal::Boolean(x),
            Literal::Array(xs) => Literal::Array(exprs_to_pats(xs)?),
            Literal::Object(xs) => Literal::Object(fields_to_pats(xs)?),
        },
    )
}

/// Reads each expression of a list as a pattern, and stops at the first
/// that is none.
fn exprs_to_pats(es: Vec<Expr>) -> (result: Result<Vec<Pat>, String>)
    ensures
        match result {
            Ok(ps) => exprs_to_pats_spec(exprs_view(es@)) == Ok::<Seq<PatView>, Seq<char>>(
                pats_view(ps@),
            ),
            Err(msg) => exprs_to_pats_spec(exprs_view(es@)) == Err::<Seq<PatView>, Seq<char>>(
                msg@,
            ),
        },
    decreases es,
{
    let mut pats: Vec<Pat> = Vec::new();
    let ghost all = exprs_view(es@);
    assert(pats_view(pats@) == Seq::<PatView>::empty());
    for e in it: es
        invariant
            it.seq() == es@,
            all == exprs_view(es@),
            exprs_to_pats_spec(all.take(it.index() as int)) == Ok::<Seq<PatView>, Seq<char>>(
                pats_view(pats@),
            ),
    {
        let ghost i = it.index() as int;
        let ghost before = pats@;
        assert(all.take(i + 1).drop_last() == all.take(i));
        match expr_to_pat(e) {
            Ok(p) => {
                pats.push(p);
                assert(pats_view(pats@) == pats_view(before).push(pat_view(p)));
            },
            Err(msg) => {
                proof {
                    lemma_exprs_to_pats_prefix_error(all, i + 1);
                }
                return Err(msg);
            },
        }
    }
    assert(all.take(all.len() as int) == all);
    Ok(pats)
}

/// Reads each expression of a list of labelled expressions as a pattern,
/// and stops at the first that is none.
fn fields_to_pats(fields: Vec<(Symbol, Expr)>) -> (result: Result<Vec<(Symbol, Pat)>, String>)
    ensures
        match result {
            Ok(ps) => fields_to_pats_spec(fields_view(fields@)) == Ok::<
                Seq<(Symbol, PatView)>,
                Seq<char>,
            >(pat_fields_view(ps@)),
            Err(msg) => fields_to_pats_spec(fields_view(fields@)) == Err::<
                Seq<(Symbol, PatView)>,
                Seq<char>,
            >(msg@),
        },
    decreases fields,
{
    let mut pats: Vec<(Symbol, Pat)> = Vec::new();
    let ghost all = fields_view(fields@);
    assert(pat_fields_view(pats@) == Seq::<(Symbol, PatView)>::empty());
    for field in it: fields
        invariant
            it.seq() == fields@,
            all == fields_view(fields@),
            fields_to_pats_spec(all.take(it.index() as int)) == Ok::<
                Seq<(Symbol, PatView)>,
                Seq<char>,
            >(pat_fields_view(pats@)),
    {
        let ghost i = it.index() as int;
        let ghost before = pats@;
        assert(all.take(i + 1).drop_last() == all.take(i));
        let (label, e) = field;
        match expr_to_pat(e) {
            Ok(p) => {
                pats.push((label, p));
                assert(pat_fields_view(pats@) == pat_fields_view(before).push(
                    (label, pat_view(p)),
                ));
            },
            Err(msg) => {
                proof {
                    lemma_fields_to_pats_prefix_error(all, i + 1);
                }
                return Err(msg);
            },
        }
    }
    assert(all.take(all.len() as int) == all);
    Ok(pats)
}

/// Reads the operators and right operands of an infix chain as those of a
/// pattern chain, and stops at the first that cannot stand in a pattern.
fn operands_to_pats(rest: Vec<(InfixOp, Expr)>) -> (result: Result<Vec<(Symbol, Pat)>, String>)
    ensures
        match result {
            Ok(ps) => operands_to_pats_spec(operands_view(rest@)) == Ok::<
                Seq<(Symbol, PatView)>,
                Seq<char>,
            >(pat_fields_view(ps@)),
            Err(msg) => operands_to_pats_spec(operands_view(rest@)) == Err::<
                Seq<(Symbol, PatView)>,
                Seq<char>,
            >(msg@),
        },
    decreases rest,
{
    let mut pats: Vec<(Symbol, Pat)> = Vec::new();
    let ghost all = operands_view(rest@);
    assert(pat_fields_view(pats@) == Seq::<(Symbol, PatView)>::empty());
    for operand in it: rest
        invariant
            it.seq() == rest@,
            all == operands_view(rest@),
            operands_to_pats_spec(all.take(it.index() as int)) == Ok::<
                Seq<(Symbol, PatView)>,
                Seq<char>,
            >(pat_fields_view(pats@)),
    {
        let ghost i = it.index() as int;
        let ghost before = pats@;
        assert(all.take(i + 1).drop_last() == all.take(i));
        let (op, e) = operand;
        match op {
            InfixOp::Symbol(name) => match expr_to_pat(e) {
                Ok(p) => {
                    pats.push((name, p));
                    assert(pat_fields_view(pats@) == pat_fields_view(before).push(
                        (name, pat_view(p)),
                    ));
                },
                Err(msg) => {
                    proof {
                        lemma_operands_to_pats_prefix_error(all, i + 1);
                    }
                    return Err(msg);
                },
            },
            InfixOp::Backtick(_) => {
                proof {
                    lemma_operands_to_pats_prefix_error(all, i + 1);
                }
                return Err("Illegal backtick operator in pattern".to_owned());
            },
        }
    }
    assert(all.take(all.len() as int) == all);
    Ok(pats)
}

/// Once a prefix of a list is rejected, the whole list is rejected with the
/// same message.
proof fn lemma_exprs_to_pats_prefix_error(es: Seq<ExprView>, n: int)
    requires
        0 <= n <= es.len(),
        exprs_to_pats_spec(es.take(n)) is Err,
    ensures
        exprs_to_pats_spec(es) == exprs_to_pats_spec(es.take(n)),
    decreases es.len(),
{
    if n == es.len() {
        assert(es.take(n) == es);
    } else {
        assert(es.drop_last().take(n) == es.take(n));
        lemma_exprs_to_pats_prefix_error(es.drop_last(), n);
    }
}

/// Once a prefix of a list of fields is rejected, the whole list is rejected
/// with the same message.
proof fn lemma_fields_to_pats_prefix_error(fields: Seq<(Symbol, ExprView)>, n: int)
    requires
        0 <= n <= fields.len(),
        fields_to_pats_spec(fields.take(n)) is Err,
    ensures
        fields_to_pats_spec(fields) == fields_to_pats_spec(fields.take(n)),
    decreases fields.len(),
{
    if n == fields.len() {
        assert(fields.take(n) == fields);
    } else {
        assert(fields.drop_last().take(n) == fields.take(n));
        lemma_fields_to_pats_prefix_error(fields.drop_last(), n);
    }
}

/// Once a prefix of an infix chain is rejected, the whole chain is rejected
/// with the same message.
proof fn lemma_operands_to_pats_prefix_error(rest: Seq<(InfixOpView, ExprView)>, n: int)
    requires
        0 <= n <= rest.len(),
        operands_to_pats_spec(rest.take(n)) is Err,
    ensures
        operands_to_pats_spec(rest) == operands_to_pats_spec(rest.take(n)),
    decreases rest.len(),
{
    if n == rest.len() {
        assert(rest.take(n) == rest);
    } else {
        assert(rest.drop_last().take(n) == rest.take(n));
        lemma_operands_to_pats_prefix_error(rest.drop_last(), n);
    }
}

/// The items of `v` from last to first.
fn reversed<T>(v: Vec<T>) -> (r: Vec<T>)
    ensures
        r@ == v@.reverse(),
{
    let mut rest = v;
    let mut r: Vec<T> = Vec::new();
    while rest.len() > 0
        invariant
            rest@.len() <= v@.len(),
            r@.len() + rest@.len() == v@.len(),
            rest@ == v@.take(rest@.len() as int),
            forall|i: int| 0 <= i < r@.len() ==> r@[i] == v@[v@.len() - 1 - i],
        decreases rest@.len(),
    {
        if let Some(x) = rest.pop() {
            r.push(x);
        }
    }
    r
}

/// Strips a chain of type applications down to the constructor at its
/// root, for the head of an instance.
pub fn constraint_to_instance_head(c: Type) -> (head: Option<(QualifiedName, Vec<Type>)>)
    ensures
        instance_head_view(head) == instance_head_spec(c@),
{
    let ghost whole = c@;
    let mut t = c;
    let mut args: Vec<Type> = Vec::new();
    loop
        invariant
            whole == c@,
            instance_head_spec(whole) == match instance_head_spec(t@) {
                Some((name, inner)) => Some((name, inner + types_view(args@).reverse())),
                None => None,
            },
        decreases t,
    {
        let ghost seen = types_view(args@);
        match t.into_inner() {
            TypeKind::TypeConstructor(name) => {
                let args = reversed(args);
                return Some((name, args));
            },
            TypeKind::TypeApp(f, x) => {
                args.push(*x);
                t = *f;
                assert(types_view(args@) == seen.push(type_view(*x)));
            },
            _ => {
                return None;
            },
        }
    }
}

/// Strips a chain of type applications down to the constructor at its
/// root, for the head of a class declaration.
pub fn constraint_to_class_head(c: Type) -> (head: Option<(Symbol, Vec<TypeParameter>)>)
    ensures
        class_head_view(head) == class_head_spec(c@),
{
    let ghost whole = c@;
    let mut t = c;
    let mut params: Vec<TypeParameter> = Vec::new();
    loop
        invariant
            whole == c@,
            class_head_spec(whole) == match class_head_spec(t@) {
                Some((name, inner)) => Some(
                    (name, inner + type_parameters_view(params@).reverse()),
                ),
                None => None,
            },
        decreases t,
    {
        let ghost seen = type_parameters_view(params@);
        match t.into_inner() {
            TypeKind::TypeConstructor(name) => {
                if name.is_actually_qualified() {
                    return None;
                }
                let params = reversed(params);
                return Some((name.name, params));
            },
            TypeKind::TypeApp(f, x) => match x.into_inner() {
                TypeKind::Var(v) => {
                    assert(type_view(*x).1 == TypeKindView::Var(v));
                    params.push((v, None));
                    t = *f;
                    assert(type_parameters_view(params@) == seen.push((v, None::<TypeView>)));
                },
                _ => {
                    return None;
                },
            },
            _ => {
                return None;
            },
        }
    }
}

/// Applies `f` to one more argument.
///
/// The grammar reads an application one argument at a time and calls this
/// for each, so that `f a b c` comes out as `f` applied to `[a, b, c]` and
/// never as a nest of applications.
pub fn normalize_app(f: Expr, x: Expr) -> (app: ExprKind)
    ensures
        app@ == normalize_app_spec(f@, x@),
{
    match f {
        Located(_, ExprKind::App(f0, mut args)) => {
            let ghost before = exprs_view(args@);
            args.push(x);
            assert(exprs_view(args@) == before.push(x@));
            ExprKind::App(f0, args)
        },
        _ => {
            let args = vec![x];
            assert(exprs_view(args@) == seq![x@]);
            ExprKind::App(Box::new(f), args)
        },
    }
}

/// Builds the application of `f` to `args`, where some of `args` may be
/// record-update suffixes.
///
/// The grammar reads `expression suffix*`, and a suffix is an argument or a
/// record update in braces. Each update attaches to what stands before it,
/// so `f r { x = 1 } { y: 2 } q` applies `f` to `r`, updated twice, and to
/// `q`.
pub fn apply_record_updates(f: Expr, args: Vec<Expr>) -> (app: ExprKind)
    ensures
        app@ == apply_record_updates_spec(f@, exprs_view(args@)),
{
    let ghost all = exprs_view(args@);
    let mut result = vec![f];
    for expr in it: args
        invariant
            it.seq() == args@,
            all == exprs_view(args@),
            result@.len() > 0,
            exprs_view(result@) == attach_record_updates(f@, all.take(it.index() as int)),
    {
        let ghost i = it.index() as int;
        assert(all.take(i + 1).drop_last() == all.take(i));
        match expr {
            Located(suffix_span, ExprKind::RecordUpdateSuffix(update)) => {
                let last = result.pop().unwrap();
                result.push(Located(suffix_span, ExprKind::RecordUpdate(Box::new(last), update)));
            },
            _ => {
                result.push(expr);
            },
        }
    }
    assert(all.take(all.len() as int) == all);
    let ghost attached = exprs_view(result@);
    let f = result.remove(0);
    assert(exprs_view(result@) == attached.drop_first());
    ExprKind::App(Box::new(f), result)
}

} // verus!
