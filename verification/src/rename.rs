//! The renaming pass: every use of a variable in a module is found to be a
//! local binding or is rewritten to the absolute name of a declaration.
//!
//! A use is looked up in two tiers. The first is the innermost local scope:
//! the variables bound by the patterns of the lambda or equation that the
//! use stands in directly. The second is the module scope: the names that
//! the module declares or imports. Only the innermost local scope is
//! searched, so a variable bound further out and not bound again is looked
//! up in the module scope.
//!
//! Failures do not stop the pass. Each is recorded, the node it concerns is
//! left as it was, and the pass goes on, so that one run reports every
//! failure of a module.

use vstd::prelude::*;
use std::collections::HashSet;
use crate::ast::expr::{CaseBranch, ExprKind, Pat, PatKind, PossiblyGuardedExpr};
use crate::ast::meta::{Located, SourceSpan};
use crate::ast::model::{case_branches_view, pats_view, CaseBranchView, PatView};
use crate::ast::name::{AbsoluteName, ModuleId, QualifiedName, Symbol};
use crate::ast::types::TypeKind;
use crate::indexed_module::{values_view, DeclId, IndexedModule, ValueDecl, ValueDeclView};
pub use self::scope::ModuleScope;
use self::spec::{
    bind_pat_spec, bind_pats_spec, rename_branch_spec, rename_branches_spec, rename_expr_spec,
    rename_module_spec, rename_rhs_spec, rename_value_decl_spec, rename_values_spec,
};

pub mod laws;
pub mod scope;
pub mod spec;

verus! {

broadcast use vstd::std_specs::hash::group_hash_axioms;

/// What the renaming pass can find wrong.
#[derive(Clone, Copy, Debug, PartialEq, Eq)]
pub enum RenameError {
    /// A variable that is neither bound in the innermost local scope nor
    /// known to the module scope.
    UnresolvedName { span: SourceSpan, name: QualifiedName },
    /// A variable bound a second time in the same local scope.
    DuplicateBinder { span: SourceSpan, symbol: Symbol },
    /// An expression of a form that the pass does not rename yet.
    UnsupportedExpr { span: SourceSpan },
    /// A pattern of a form that the pass does not rename yet.
    UnsupportedPattern { span: SourceSpan },
    /// A right-hand side under guards, which the pass does not rename yet.
    UnsupportedGuards,
}

/// The symbols whose handles are `ids`.
spec fn symbols(ids: Set<u32>) -> Set<Symbol> {
    Set::new(|s: Symbol| ids.contains(s.0))
}

/// The state of the pass while it walks a module: the names of the module,
/// the local scopes that are open, innermost last, and the failures met so
/// far.
pub struct Renamer {
    module_scope: ModuleScope,
    local_scopes: Vec<HashSet<u32>>,
    errors: Vec<RenameError>,
}

impl Renamer {
    /// The names of the module.
    pub closed spec fn scope(&self) -> Map<QualifiedName, AbsoluteName> {
        self.module_scope@
    }

    /// The local scopes that are open, innermost last.
    pub closed spec fn locals(&self) -> Seq<Set<Symbol>> {
        Seq::new(self.local_scopes@.len(), |i: int| symbols(self.local_scopes@[i]@))
    }

    /// The failures met so far, oldest first.
    pub closed spec fn errors(&self) -> Seq<RenameError> {
        self.errors@
    }

    /// The state in which the pass starts on a module: one local scope is
    /// open, and it is empty.
    pub fn new(module_scope: ModuleScope) -> (r: Self)
        ensures
            r.scope() == module_scope@,
            r.locals() == seq![Set::<Symbol>::empty()],
            r.errors() == Seq::<RenameError>::empty(),
    {
        let mut local_scopes: Vec<HashSet<u32>> = Vec::new();
        local_scopes.push(HashSet::new());
        let r = Renamer { module_scope, local_scopes, errors: Vec::new() };
        assert(r.locals() =~= seq![Set::<Symbol>::empty()]) by {
            assert(symbols(Set::<u32>::empty()) =~= Set::<Symbol>::empty());
        }
        r
    }

    /// How many local scopes are open.
    pub fn depth(&self) -> (n: usize)
        ensures
            n == self.locals().len(),
    {
        self.local_scopes.len()
    }

    /// Opens a local scope, empty at first.
    pub fn push_scope(&mut self)
        ensures
            final(self).scope() == old(self).scope(),
            final(self).errors() == old(self).errors(),
            final(self).locals() == old(self).locals().push(Set::empty()),
    {
        self.local_scopes.push(HashSet::new());
        assert(self.locals() =~= old(self).locals().push(Set::empty())) by {
            assert(symbols(Set::<u32>::empty()) =~= Set::<Symbol>::empty());
        }
    }

    /// Closes the innermost local scope. One has to be open.
    pub fn pop_scope(&mut self)
        requires
            old(self).locals().len() > 0,
        ensures
            final(self).scope() == old(self).scope(),
            final(self).errors() == old(self).errors(),
            final(self).locals() == old(self).locals().drop_last(),
    {
        let _ = self.local_scopes.pop();
    }

    /// The innermost local scope, as the set of the handles of its symbols.
    /// One has to be open.
    fn top_scope(&mut self) -> (top: &mut HashSet<u32>)
        requires
            old(self).locals().len() > 0,
        ensures
            symbols(top@) == old(self).locals().last(),
            final(self).scope() == old(self).scope(),
            final(self).errors() == old(self).errors(),
            final(self).locals() == old(self).locals().drop_last().push(symbols(final(top)@)),
    {
        let n = self.local_scopes.len();
        &mut self.local_scopes[n - 1]
    }

    /// Whether the innermost local scope binds `name`. One has to be open.
    pub fn is_local(&self, name: Symbol) -> (local: bool)
        requires
            self.locals().len() > 0,
        ensures
            local == self.locals().last().contains(name),
    {
        let n = self.local_scopes.len();
        self.local_scopes[n - 1].contains(&name.0)
    }

    /// Binds `name` in the innermost local scope, and says whether it was
    /// new there. One has to be open.
    pub fn bind(&mut self, name: Symbol) -> (fresh: bool)
        requires
            old(self).locals().len() > 0,
        ensures
            fresh == !old(self).locals().last().contains(name),
            final(self).scope() == old(self).scope(),
            final(self).errors() == old(self).errors(),
            final(self).locals() == old(self).locals().drop_last().push(
                old(self).locals().last().insert(name),
            ),
    {
        let top = self.top_scope();
        let ghost before = top@;
        let fresh = top.insert(name.0);
        assert(symbols(before.insert(name.0)) =~= symbols(before).insert(name));
        fresh
    }

    /// Records a failure.
    fn report(&mut self, error: RenameError)
        ensures
            final(self).scope() == old(self).scope(),
            final(self).locals() == old(self).locals(),
            final(self).errors() == old(self).errors().push(error),
    {
        self.errors.push(error);
    }

    /// Ends the pass and hands out the failures it met, oldest first.
    pub fn into_errors(self) -> (errors: Vec<RenameError>)
        ensures
            errors@ == self.errors(),
    {
        self.errors
    }
}

impl Located<PatKind> {
    /// Binds the variables of this pattern in the innermost local scope.
    /// The pattern itself has nothing to rewrite. A local scope has to be
    /// open.
    pub fn rename(&self, r: &mut Renamer)
        requires
            old(r).locals().len() > 0,
        ensures
            final(r).scope() == old(r).scope(),
            final(r).locals() == old(r).locals().drop_last().push(
                bind_pat_spec(old(r).locals().last(), self@).scope,
            ),
            final(r).errors() == old(r).errors() + bind_pat_spec(
                old(r).locals().last(),
                self@,
            ).errors,
    {
        let ghost top = r.locals().last();
        match &self.1 {
            PatKind::Var(name) => {
                if !r.bind(*name) {
                    assert(top.insert(*name) == top);
                    r.report(RenameError::DuplicateBinder { span: self.0, symbol: *name });
                }
            },
            _ => {
                r.report(RenameError::UnsupportedPattern { span: self.0 });
            },
        }
    }
}

/// Binds the variables of `pats` in the innermost local scope, from left to
/// right.
fn rename_pats(pats: &Vec<Pat>, r: &mut Renamer)
    requires
        old(r).locals().len() > 0,
    ensures
        final(r).scope() == old(r).scope(),
        final(r).locals() == old(r).locals().drop_last().push(
            bind_pats_spec(old(r).locals().last(), pats_view(pats@)).scope,
        ),
        final(r).errors() == old(r).errors() + bind_pats_spec(
            old(r).locals().last(),
            pats_view(pats@),
        ).errors,
{
    let ghost top = r.locals().last();
    let ghost all = pats_view(pats@);
    let mut i: usize = 0;
    while i < pats.len()
        invariant
            0 <= i <= pats.len(),
            all == pats_view(pats@),
            top == old(r).locals().last(),
            r.scope() == old(r).scope(),
            r.locals() == old(r).locals().drop_last().push(
                bind_pats_spec(top, all.take(i as int)).scope,
            ),
            r.errors() == old(r).errors() + bind_pats_spec(top, all.take(i as int)).errors,
        decreases pats.len() - i,
    {
        assert(all.take(i + 1).drop_last() == all.take(i as int));
        pats[i].rename(r);
        i += 1;
    }
    assert(all.take(pats.len() as int) == all);
}

impl Located<ExprKind> {
    /// Renames this expression in place. A local scope has to be open: the
    /// innermost is the one that the expression stands in directly.
    ///
    /// The local scopes are the same after the call as before it.
    pub fn rename(&mut self, r: &mut Renamer)
        requires
            old(r).locals().len() > 0,
        ensures
            final(r).scope() == old(r).scope(),
            final(r).locals() == old(r).locals(),
            final(self)@ == rename_expr_spec(
                old(r).scope(),
                old(r).locals().last(),
                old(self)@,
            ).value,
            final(r).errors() == old(r).errors() + rename_expr_spec(
                old(r).scope(),
                old(r).locals().last(),
                old(self)@,
            ).errors,
        decreases *old(self),
    {
        let span = self.0;
        match &mut self.1 {
            ExprKind::Var(name) => {
                let is_local = name.module.is_none() && r.is_local(name.name);
                if !is_local {
                    match r.module_scope.get(name) {
                        None => {
                            r.report(RenameError::UnresolvedName { span, name: *name });
                        },
                        Some(target) => {
                            *name = target.to_qualified_name();
                        },
                    }
                }
            },
            ExprKind::Lam(pats, body) => {
                r.push_scope();
                rename_pats(pats, r);
                body.rename(r);
                r.pop_scope();
            },
            _ => {
                r.report(RenameError::UnsupportedExpr { span });
            },
        }
    }
}

impl PossiblyGuardedExpr {
    /// Renames this right-hand side in place. A local scope has to be open:
    /// the innermost is the one that the right-hand side stands in directly.
    ///
    /// The local scopes are the same after the call as before it.
    pub fn rename(&mut self, r: &mut Renamer)
        requires
            old(r).locals().len() > 0,
        ensures
            final(r).scope() == old(r).scope(),
            final(r).locals() == old(r).locals(),
            final(self)@ == rename_rhs_spec(
                old(r).scope(),
                old(r).locals().last(),
                old(self)@,
            ).value,
            final(r).errors() == old(r).errors() + rename_rhs_spec(
                old(r).scope(),
                old(r).locals().last(),
                old(self)@,
            ).errors,
    {
        match self {
            PossiblyGuardedExpr::Unconditional(e) => {
                e.rename(r);
            },
            PossiblyGuardedExpr::Guarded(_) => {
                r.report(RenameError::UnsupportedGuards);
            },
        }
    }
}

impl CaseBranch {
    /// Renames this equation or case branch in place: a local scope is
    /// opened for its patterns, they are bound in it from left to right, the
    /// right-hand side is renamed, and the scope is closed again.
    ///
    /// The local scopes are the same after the call as before it.
    pub fn rename(&mut self, r: &mut Renamer)
        ensures
            final(r).scope() == old(r).scope(),
            final(r).locals() == old(r).locals(),
            final(self)@ == rename_branch_spec(old(r).scope(), old(self)@).value,
            final(r).errors() == old(r).errors() + rename_branch_spec(
                old(r).scope(),
                old(self)@,
            ).errors,
    {
        r.push_scope();
        rename_pats(&self.pats, r);
        self.expr.rename(r);
        r.pop_scope();
    }
}

impl Located<TypeKind> {
    /// Renames this type in place. Types are not renamed yet: the type and
    /// the state of the pass stay as they are.
    pub fn rename(&mut self, r: &mut Renamer)
        ensures
            *final(self) == *old(self),
            *final(r) == *old(r),
    {
    }
}

impl ValueDecl {
    /// Renames this value in place: its type signature, then its equations
    /// in order.
    ///
    /// The local scopes are the same after the call as before it.
    pub fn rename(&mut self, r: &mut Renamer)
        ensures
            final(r).scope() == old(r).scope(),
            final(r).locals() == old(r).locals(),
            final(self)@ == rename_value_decl_spec(old(r).scope(), old(self)@).value,
            final(r).errors() == old(r).errors() + rename_value_decl_spec(
                old(r).scope(),
                old(self)@,
            ).errors,
    {
        match &mut self.type_ {
            None => {},
            Some(t) => {
                t.rename(r);
            },
        }
        let ghost all = case_branches_view(self.equations@);
        let mut i: usize = 0;
        proof {
            assert(all.take(0) == Seq::<CaseBranchView>::empty());
        }
        while i < self.equations.len()
            invariant
                0 <= i <= self.equations.len(),
                self.equations.len() == all.len(),
                all == case_branches_view(old(self).equations@),
                self.type_ == old(self).type_,
                r.scope() == old(r).scope(),
                r.locals() == old(r).locals(),
                case_branches_view(self.equations@).take(i as int) == rename_branches_spec(
                    r.scope(),
                    all.take(i as int),
                ).value,
                case_branches_view(self.equations@).skip(i as int) == all.skip(i as int),
                r.errors() == old(r).errors() + rename_branches_spec(
                    r.scope(),
                    all.take(i as int),
                ).errors,
            decreases self.equations.len() - i,
        {
            let ghost before = case_branches_view(self.equations@);
            proof {
                assert(all.take(i + 1).drop_last() == all.take(i as int));
                assert(all.take(i + 1).last() == all[i as int]);
                assert(before[i as int] == before.skip(i as int)[0]);
                assert(all[i as int] == all.skip(i as int)[0]);
            }
            self.equations[i].rename(r);
            proof {
                let after = case_branches_view(self.equations@);
                assert(after == before.update(i as int, self.equations[i as int]@));
                assert(after.take(i + 1) == before.take(i as int).push(after[i as int]));
                assert(after.skip(i + 1) == before.skip(i as int).skip(1));
                assert(all.skip(i + 1) == all.skip(i as int).skip(1));
            }
            i += 1;
        }
        proof {
            assert(all.take(all.len() as int) == all);
            assert(case_branches_view(self.equations@).take(all.len() as int)
                == case_branches_view(self.equations@));
        }
    }
}

impl IndexedModule {
    /// Renames the values of this module in place, in order. Types and
    /// classes are not renamed yet.
    ///
    /// The local scopes are the same after the call as before it.
    pub fn rename(&mut self, r: &mut Renamer)
        ensures
            final(r).scope() == old(r).scope(),
            final(r).locals() == old(r).locals(),
            final(self)@.values == rename_values_spec(old(r).scope(), old(self)@.values).value,
            final(r).errors() == old(r).errors() + rename_values_spec(
                old(r).scope(),
                old(self)@.values,
            ).errors,
    {
        let ghost all = values_view(self.values@);
        let mut i: usize = 0;
        proof {
            assert(all.take(0) == Seq::<(Symbol, ValueDeclView)>::empty());
        }
        while i < self.values.len()
            invariant
                0 <= i <= self.values.len(),
                self.values.len() == all.len(),
                all == values_view(old(self).values@),
                r.scope() == old(r).scope(),
                r.locals() == old(r).locals(),
                values_view(self.values@).take(i as int) == rename_values_spec(
                    r.scope(),
                    all.take(i as int),
                ).value,
                values_view(self.values@).skip(i as int) == all.skip(i as int),
                r.errors() == old(r).errors() + rename_values_spec(
                    r.scope(),
                    all.take(i as int),
                ).errors,
            decreases self.values.len() - i,
        {
            let ghost before = values_view(self.values@);
            proof {
                assert(all.take(i + 1).drop_last() == all.take(i as int));
                assert(all.take(i + 1).last() == all[i as int]);
                assert(before[i as int] == before.skip(i as int)[0]);
                assert(all[i as int] == all.skip(i as int)[0]);
            }
            self.values[i].1.rename(r);
            proof {
                let after = values_view(self.values@);
                assert(after == before.update(
                    i as int,
                    (self.values[i as int].0, self.values[i as int].1@),
                ));
                assert(after.take(i + 1) == before.take(i as int).push(after[i as int]));
                assert(after.skip(i + 1) == before.skip(i as int).skip(1));
                assert(all.skip(i + 1) == all.skip(i as int).skip(1));
            }
            i += 1;
        }
        proof {
            assert(all.take(all.len() as int) == all);
            assert(values_view(self.values@).take(all.len() as int) == values_view(self.values@));
        }
    }
}

/// Renames a module in place.
///
/// `imported_decls` lists what the module can name without a local binding:
/// the declarations it imports and its own, each with the qualifier under
/// which the module refers to it, if any.
///
/// The pass rewrites every variable it can resolve and reports the rest:
/// the result is `Ok` exactly when there was nothing to report, and
/// otherwise the failures in the order of the source.
pub fn rename_module(
    module: &mut IndexedModule,
    imported_decls: Vec<(Option<ModuleId>, DeclId)>,
) -> (result: Result<(), Vec<RenameError>>)
    ensures
        final(module)@ == rename_module_spec(old(module)@, imported_decls@).value,
        match result {
            Ok(_) => rename_module_spec(old(module)@, imported_decls@).errors.len() == 0,
            Err(errors) => errors@.len() > 0 && errors@ == rename_module_spec(
                old(module)@,
                imported_decls@,
            ).errors,
        },
{
    let module_scope = ModuleScope::from_imports(&imported_decls);
    let mut r = Renamer::new(module_scope);
    module.rename(&mut r);
    let errors = r.into_errors();
    if errors.len() == 0 {
        Ok(())
    } else {
        Err(errors)
    }
}

} // verus!
