//! The declarations that a `let` block, a `do` block or a module can hold.

use vstd::prelude::*;
use super::expr::{Pat, PossiblyGuardedExpr};
use super::name::Symbol;
use super::types::Type;

verus! {

/// One declaration as the parser reads it, before declarations of the same
/// name are grouped.
#[derive(Debug, PartialEq, Eq)]
pub enum Declaration {
    /// `name :: type`.
    TypeSignature { name: Symbol, type_: Type },
    /// One equation of a value: `name params = body`.
    ValueDeclaration { name: Symbol, params: Vec<Pat>, expr: PossiblyGuardedExpr },
    /// `pattern = body`, which binds the variables of the pattern.
    Destructuring { pat: Pat, expr: PossiblyGuardedExpr },
}

} // verus!
