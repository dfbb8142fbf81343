//! The module scope: the names that are visible throughout a module.

use vstd::prelude::*;
use std::collections::HashMap;
use crate::ast::name::{AbsoluteName, ModuleId, QualifiedName, Symbol};
use crate::indexed_module::DeclId;

verus! {

broadcast use vstd::std_specs::hash::group_hash_axioms;

/// The names that an import list brings into a module: each declaration
/// under its own name, with the qualifier that its import gave it, if any.
/// Where two imports give the same name, the later one counts.
pub open spec fn module_scope_spec(imports: Seq<(Option<ModuleId>, DeclId)>) -> Map<
    QualifiedName,
    AbsoluteName,
>
    decreases imports.len(),
{
    if imports.len() == 0 {
        Map::empty()
    } else {
        module_scope_spec(imports.drop_last()).insert(
            imported_name(imports.last()),
            imported_target(imports.last()),
        )
    }
}

/// The name under which an import makes its declaration known.
pub open spec fn imported_name(import: (Option<ModuleId>, DeclId)) -> QualifiedName {
    QualifiedName { module: import.0, name: import.1.name }
}

/// The declaration that an import makes known.
pub open spec fn imported_target(import: (Option<ModuleId>, DeclId)) -> AbsoluteName {
    AbsoluteName { module: import.1.module, name: import.1.name }
}

/// The names visible throughout a module, each with the declaration it
/// refers to.
pub struct ModuleScope {
    unqualified: HashMap<u32, AbsoluteName>,
    qualified: HashMap<u64, AbsoluteName>,
}

/// The key under which a qualified name is kept: both handles side by side.
spec fn qualified_key(module: ModuleId, name: Symbol) -> u64 {
    (module.0 as u64 * 0x1_0000_0000 + name.0 as u64) as u64
}

impl ModuleScope {
    /// The names of the scope and what each refers to.
    pub closed spec fn view(&self) -> Map<QualifiedName, AbsoluteName> {
        Map::new(
            |q: QualifiedName|
                match q.module {
                    None => self.unqualified@.contains_key(q.name.0),
                    Some(m) => self.qualified@.contains_key(qualified_key(m, q.name)),
                },
            |q: QualifiedName|
                match q.module {
                    None => self.unqualified@[q.name.0],
                    Some(m) => self.qualified@[qualified_key(m, q.name)],
                },
        )
    }

    /// A scope without names.
    pub fn new() -> (scope: Self)
        ensures
            scope@ == Map::<QualifiedName, AbsoluteName>::empty(),
    {
        let scope = ModuleScope { unqualified: HashMap::new(), qualified: HashMap::new() };
        scope
    }

    /// Makes `name` refer to `target`, whatever it referred to before.
    pub fn insert(&mut self, name: QualifiedName, target: AbsoluteName)
        ensures
            final(self)@ == old(self)@.insert(name, target),
    {
        match name.module {
            None => {
                self.unqualified.insert(name.name.0, target);
            },
            Some(m) => {
                let key: u64 = m.0 as u64 * 0x1_0000_0000 + name.name.0 as u64;
                self.qualified.insert(key, target);
            },
        }
    }

    /// What `name` refers to, if the scope knows it.
    pub fn get(&self, name: &QualifiedName) -> (target: Option<AbsoluteName>)
        ensures
            target == if self@.contains_key(*name) {
                Some(self@[*name])
            } else {
                None
            },
    {
        match name.module {
            None => match self.unqualified.get(&name.name.0) {
                Some(target) => Some(*target),
                None => None,
            },
            Some(m) => {
                let key: u64 = m.0 as u64 * 0x1_0000_0000 + name.name.0 as u64;
                match self.qualified.get(&key) {
                    Some(target) => Some(*target),
                    None => None,
                }
            },
        }
    }

    /// The scope that an import list gives.
    pub fn from_imports(imports: &Vec<(Option<ModuleId>, DeclId)>) -> (scope: Self)
        ensures
            scope@ == module_scope_spec(imports@),
    {
        let mut scope = ModuleScope::new();
        let mut i: usize = 0;
        while i < imports.len()
            invariant
                0 <= i <= imports.len(),
                scope@ == module_scope_spec(imports@.take(i as int)),
            decreases imports.len() - i,
        {
            let (qualifier, id) = imports[i];
            assert(imports@.take(i + 1).drop_last() == imports@.take(i as int));
            scope.insert(
                QualifiedName::new(qualifier, id.name),
                AbsoluteName::new(id.module, id.name),
            );
            i += 1;
        }
        assert(imports@.take(imports.len() as int) == imports@);
        scope
    }
}

} // verus!
