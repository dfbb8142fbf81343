//! The abstract syntax tree shared by the parser and the later passes.

pub mod declaration;
pub mod expr;
pub mod meta;
pub mod model;
pub mod name;
pub mod proper;
pub mod types;

pub use meta::{Comment, Commented, Located, SourceSpan};
pub use name::{AbsoluteName, ModuleId, QualifiedName, Symbol};
pub use types::{Type, TypeKind, TypeParameter};
pub use declaration::Declaration;
pub use expr::{
    CaseBranch, DoItem, Expr, ExprKind, Guard, GuardedExpr, InfixOp, Literal, Pat, PatKind,
    PossiblyGuardedExpr, RecordLiteralOrUpdate, RecordUpdate,
};
