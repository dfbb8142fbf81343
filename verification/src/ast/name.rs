//! Interned identifiers and the names built from them.

use vstd::prelude::*;

verus! {

/// An interned identifier. Two symbols are the same identifier exactly when
/// their handles are equal; the text behind a handle is kept by whoever
/// interned it.
#[derive(Clone, Copy, Debug, PartialEq, Eq, Hash, Structural)]
pub struct Symbol(pub u32);

/// The interned name of a module.
#[derive(Clone, Copy, Debug, PartialEq, Eq, Hash, Structural)]
pub struct ModuleId(pub u32);

/// A name as it is written in the source: a symbol with the module
/// qualifier in front of it, if there is one.
#[derive(Clone, Copy, Debug, PartialEq, Eq, Hash)]
pub struct QualifiedName {
    pub module: Option<ModuleId>,
    pub name: Symbol,
}

impl QualifiedName {
    /// The name `name`, qualified by `module` if one is given.
    pub fn new(module: Option<ModuleId>, name: Symbol) -> (q: Self)
        ensures
            q.module == module,
            q.name == name,
    {
        Self { module, name }
    }

    /// The qualifier as written, if any.
    pub fn module(&self) -> (module: Option<ModuleId>)
        ensures
            module == self.module,
    {
        self.module
    }

    /// The symbol behind the qualifier.
    pub fn name(&self) -> (name: Symbol)
        ensures
            name == self.name,
    {
        self.name
    }

    /// Whether the name was written with a module qualifier.
    pub fn is_actually_qualified(&self) -> (qualified: bool)
        ensures
            qualified == self.module.is_some(),
    {
        self.module.is_some()
    }
}

/// The identity of a binding once resolved: the module that owns it and its
/// symbol there.
#[derive(Clone, Copy, Debug, PartialEq, Eq, Hash)]
pub struct AbsoluteName {
    pub module: ModuleId,
    pub name: Symbol,
}

impl AbsoluteName {
    /// The binding `name` of `module`.
    pub fn new(module: ModuleId, name: Symbol) -> (a: Self)
        ensures
            a.module == module,
            a.name == name,
    {
        Self { module, name }
    }

    /// The owning module.
    pub fn module(&self) -> (module: ModuleId)
        ensures
            module == self.module,
    {
        self.module
    }

    /// The symbol of the binding in its module.
    pub fn name(&self) -> (name: Symbol)
        ensures
            name == self.name,
    {
        self.name
    }

    /// The qualified name that refers to this binding from anywhere: the
    /// symbol, qualified by the owning module.
    pub open spec fn spec_to_qualified_name(&self) -> QualifiedName {
        QualifiedName { module: Some(self.module), name: self.name }
    }

    /// The qualified name that refers to this binding from anywhere: the
    /// symbol, qualified by the owning module.
    #[verifier::when_used_as_spec(spec_to_qualified_name)]
    pub fn to_qualified_name(&self) -> (q: QualifiedName)
        ensures
            q == self.spec_to_qualified_name(),
    {
        QualifiedName { module: Some(self.module), name: self.name }
    }
}

} // verus!
