//! Typed construction of PostgreSQL full-text-search expressions.
//!
//! Document vectors (`tsvector`) and search queries (`tsquery`) are combined
//! through a closed catalog of functions and infix operators. Every expression
//! carries its SQL type in its Rust type, so only well-typed combinations can
//! be built; the same catalog is also available with a type check at
//! construction time for callers that build expressions dynamically.
pub mod catalog;
pub mod dsl;
pub mod expr;
pub mod functions;
pub mod kinds;
pub mod laws;
pub mod registry;

pub use catalog::{Function, Operator};
pub use dsl::{TsQueryExtensions, TsRumExtensions, TsVectorExtensions};
pub use expr::{text, AnyExpr, CompositionError, Expr, Tree};
pub use functions::{
    length, numnode, plainto_tsquery, querytree, strip, to_tsquery, to_tsvector, ts_headline,
    ts_rank, ts_rank_cd,
};
pub use kinds::{Bool, Float, Integer, SqlKind, SqlType, Text, TsQuery, TsVector};
pub use registry::{wire_type, RegistryError, TypeRegistry, ValueKind, WireTypeDescriptor};
