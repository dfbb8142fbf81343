//! The syntax of types, and its mathematical model.

use vstd::prelude::*;
use super::meta::Located;
use super::name::{QualifiedName, Symbol};

verus! {

/// A type as written in the source, with its span.
pub type Type = Located<TypeKind>;

/// A type variable bound by a declaration head or a `forall`, with its kind
/// where one was written.
pub type TypeParameter = (Symbol, Option<Type>);

/// The shapes a type can have.
#[derive(Debug, PartialEq, Eq)]
pub enum TypeKind {
    /// A type variable.
    Var(Symbol),
    /// A reference to a type constructor or a class, qualified or not.
    TypeConstructor(QualifiedName),
    /// The application of a type to one argument. An application to several
    /// arguments nests to the left.
    TypeApp(Box<Type>, Box<Type>),
    /// `argument -> result`.
    FunctionType(Box<Type>, Box<Type>),
    /// `forall vars. body`.
    ForAll { vars: Vec<TypeParameter>, body: Box<Type> },
    /// `constraint => body`.
    Constrained { constraint: Box<Type>, body: Box<Type> },
    /// A row of labelled types, closed or with a tail.
    Row { fields: Vec<(Symbol, Type)>, rest: Option<Box<Type>> },
    /// A type-level string.
    StringLiteral(String),
    /// A type-level integer.
    IntegerLiteral(u64),
}

/// The model of a [`Type`]: the same tree with sequences in place of vectors.
pub type TypeView = Located<TypeKindView>;

/// The model of a [`TypeParameter`].
pub type TypeParameterView = (Symbol, Option<TypeView>);

/// The model of a [`TypeKind`].
pub enum TypeKindView {
    Var(Symbol),
    TypeConstructor(QualifiedName),
    TypeApp(Box<TypeView>, Box<TypeView>),
    FunctionType(Box<TypeView>, Box<TypeView>),
    ForAll { vars: Seq<TypeParameterView>, body: Box<TypeView> },
    Constrained { constraint: Box<TypeView>, body: Box<TypeView> },
    Row { fields: Seq<(Symbol, TypeView)>, rest: Option<Box<TypeView>> },
    StringLiteral(Seq<char>),
    IntegerLiteral(u64),
}

/// The model of a type.
pub open spec fn type_view(t: Type) -> TypeView
    decreases t,
{
    Located(t.0, type_kind_view(t.1))
}

/// The model of a type without its span.
pub open spec fn type_kind_view(kind: TypeKind) -> TypeKindView
    decreases kind,
{
    match kind {
        TypeKind::Var(v) => TypeKindView::Var(v),
        TypeKind::TypeConstructor(name) => TypeKindView::TypeConstructor(name),
        TypeKind::TypeApp(f, x) => TypeKindView::TypeApp(
            Box::new(type_view(*f)),
            Box::new(type_view(*x)),
        ),
        TypeKind::FunctionType(a, b) => TypeKindView::FunctionType(
            Box::new(type_view(*a)),
            Box::new(type_view(*b)),
        ),
        TypeKind::ForAll { vars, body } => TypeKindView::ForAll {
            vars: type_parameters_view(vars@),
            body: Box::new(type_view(*body)),
        },
        TypeKind::Constrained { constraint, body } => TypeKindView::Constrained {
            constraint: Box::new(type_view(*constraint)),
            body: Box::new(type_view(*body)),
        },
        TypeKind::Row { fields, rest } => TypeKindView::Row {
            fields: Seq::new(
                fields@.len(),
                |i: int|
                    if 0 <= i < fields@.len() {
                        (fields@[i].0, type_view(fields@[i].1))
                    } else {
                        arbitrary()
                    },
            ),
            rest: match rest {
                Some(r) => Some(Box::new(type_view(*r))),
                None => None,
            },
        },
        TypeKind::StringLiteral(s) => TypeKindView::StringLiteral(s@),
        TypeKind::IntegerLiteral(n) => TypeKindView::IntegerLiteral(n),
    }
}

/// The model of one type parameter.
pub open spec fn type_parameter_view(p: TypeParameter) -> TypeParameterView
    decreases p,
{
    (
        p.0,
        match p.1 {
            Some(kind) => Some(type_view(kind)),
            None => None,
        },
    )
}

/// The models of a list of types, in order.
pub open spec fn types_view(ts: Seq<Type>) -> Seq<TypeView>
    decreases ts,
{
    Seq::new(
        ts.len(),
        |i: int|
            if 0 <= i < ts.len() {
                type_view(ts[i])
            } else {
                arbitrary()
            },
    )
}

/// The models of a list of type parameters, in order.
pub open spec fn type_parameters_view(ps: Seq<TypeParameter>) -> Seq<TypeParameterView>
    decreases ps,
{
    Seq::new(
        ps.len(),
        |i: int|
            if 0 <= i < ps.len() {
                type_parameter_view(ps[i])
            } else {
                arbitrary()
            },
    )
}

impl TypeKind {
    /// The model of this type without its span.
    pub open spec fn view(self) -> TypeKindView {
        type_kind_view(self)
    }
}

impl Located<TypeKind> {
    /// The model of this type.
    pub open spec fn view(self) -> TypeView {
        type_view(self)
    }
}

} // verus!
