//! Typed SQL expressions over the label-path extension's types: the type
//! tags and their catalog lookup, the extension's functions, and its infix
//! operators, each checked against the operand types it accepts.

pub mod dsl;
pub mod expr;
pub mod functions;
pub mod types;

pub use crate::dsl::{
    LqueryArrayExtensions, LqueryExtensions, LtreeArrayExtensions, LtreeExtensions,
    LtxtqueryExtensions, Operator,
};
pub use crate::expr::{Array, Bool, Expr, Int4, Lquery, Ltree, Ltxtquery, Text};
pub use crate::functions::{
    index, lca, lquery, ltree2text, ltxtquery, nlevel, subltree, subpath, text2ltree,
};
pub use crate::types::{SchemaTypeUnavailable, TypeCatalog, TypeMetadata, TypeTag};
