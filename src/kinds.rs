use vstd::prelude::*;

verus! {

/// The SQL types that expressions of this library can have.
#[derive(Clone, Copy, Debug, PartialEq, Eq, Structural)]
pub enum SqlType {
    Bool,
    Integer,
    Float,
    Text,
    TsVector,
    TsQuery,
}

/// A marker type standing for one SQL type at the type level.
pub trait SqlKind: Sized {
    /// The SQL type this marker stands for.
    spec fn sql_type() -> SqlType;

    /// Returns the SQL type this marker stands for.
    fn kind() -> (r: SqlType)
        ensures
            r == Self::sql_type(),
    ;
}

/// The PostgreSQL `tsquery` type: a search query.
#[derive(Clone, Copy, Debug)]
pub struct TsQuery;

/// The PostgreSQL `tsvector` type: a document vector.
#[derive(Clone, Copy, Debug)]
pub struct TsVector;

/// The SQL `boolean` type.
#[derive(Clone, Copy, Debug)]
pub struct Bool;

/// The SQL `integer` type.
#[derive(Clone, Copy, Debug)]
pub struct Integer;

/// The SQL `real` type.
#[derive(Clone, Copy, Debug)]
pub struct Float;

/// The SQL `text` type.
#[derive(Clone, Copy, Debug)]
pub struct Text;

impl SqlKind for TsQuery {
    open spec fn sql_type() -> SqlType {
        SqlType::TsQuery
    }

    fn kind() -> (r: SqlType) {
        SqlType::TsQuery
    }
}

impl SqlKind for TsVector {
    open spec fn sql_type() -> SqlType {
        SqlType::TsVector
    }

    fn kind() -> (r: SqlType) {
        SqlType::TsVector
    }
}

impl SqlKind for Bool {
    open spec fn sql_type() -> SqlType {
        SqlType::Bool
    }

    fn kind() -> (r: SqlType) {
        SqlType::Bool
    }
}

impl SqlKind for Integer {
    open spec fn sql_type() -> SqlType {
        SqlType::Integer
    }

    fn kind() -> (r: SqlType) {
        SqlType::Integer
    }
}

impl SqlKind for Float {
    open spec fn sql_type() -> SqlType {
        SqlType::Float
    }

    fn kind() -> (r: SqlType) {
        SqlType::Float
    }
}

impl SqlKind for Text {
    open spec fn sql_type() -> SqlType {
        SqlType::Text
    }

    fn kind() -> (r: SqlType) {
        SqlType::Text
    }
}

} // verus!
