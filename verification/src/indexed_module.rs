//! A module after indexing: its declarations grouped by what they declare.

use vstd::prelude::*;
use crate::ast::expr::CaseBranch;
use crate::ast::model::{case_branches_view, CaseBranchView};
use crate::ast::name::{ModuleId, Symbol};
use crate::ast::types::{type_view, Type, TypeView};

verus! {

/// The identity of a declaration: the module that holds it and its name
/// there.
#[derive(Clone, Copy, Debug, PartialEq, Eq, Hash)]
pub struct DeclId {
    pub module: ModuleId,
    pub name: Symbol,
}

/// A value of a module: its type signature, if it has one, and its
/// equations in source order.
#[derive(Debug, PartialEq, Eq)]
pub struct ValueDecl {
    pub type_: Option<Type>,
    pub equations: Vec<CaseBranch>,
}

/// The values that a module declares, each under its name, in source order.
#[derive(Debug, PartialEq, Eq)]
pub struct IndexedModule {
    pub values: Vec<(Symbol, ValueDecl)>,
}

/// The model of a [`ValueDecl`].
pub struct ValueDeclView {
    pub type_: Option<TypeView>,
    pub equations: Seq<CaseBranchView>,
}

/// The model of an [`IndexedModule`].
pub struct IndexedModuleView {
    pub values: Seq<(Symbol, ValueDeclView)>,
}

/// The model of a value.
pub open spec fn value_decl_view(d: ValueDecl) -> ValueDeclView {
    ValueDeclView {
        type_: match d.type_ {
            Some(t) => Some(type_view(t)),
            None => None,
        },
        equations: case_branches_view(d.equations@),
    }
}

/// The models of a list of named values, in order.
pub open spec fn values_view(values: Seq<(Symbol, ValueDecl)>) -> Seq<(Symbol, ValueDeclView)> {
    Seq::new(values.len(), |i: int| (values[i].0, value_decl_view(values[i].1)))
}

impl ValueDecl {
    /// The model of this value.
    pub open spec fn view(self) -> ValueDeclView {
        value_decl_view(self)
    }
}

impl IndexedModule {
    /// The model of this module.
    pub open spec fn view(self) -> IndexedModuleView {
        IndexedModuleView { values: values_view(self.values@) }
    }
}

} // verus!
