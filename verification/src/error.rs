//! What can go wrong while a schema is declared or reconciled.

use vstd::prelude::*;

verus! {

/// The failures of the library. Each carries the names it is about.
#[derive(Debug, PartialEq, Eq)]
pub enum SchemaError {
    /// No relation exists for this scalar type.
    UnknownScalarType(String),
    /// No relation exists for this SQL type.
    UnmappableSqlType(String),
    /// The table of this name declares no column.
    EmptyTableDefinition(String),
    /// A change of length was asked for a column whose new type has none.
    MissingLength { column: String, table: String },
    /// Two indexes of a table were given the same name.
    DuplicateIndexName(String),
    /// An index names a column that the table does not declare.
    UndeclaredIndexColumn(String),
    /// The live catalog could not be read; the text says what failed.
    IntrospectionFailed(String),
    /// The database refused a statement.
    StatementExecutionFailed { sql: String, cause: String },
}

/// A failure as plain values.
pub enum SchemaErrorView {
    UnknownScalarType(Seq<char>),
    UnmappableSqlType(Seq<char>),
    EmptyTableDefinition(Seq<char>),
    MissingLength { column: Seq<char>, table: Seq<char> },
    DuplicateIndexName(Seq<char>),
    UndeclaredIndexColumn(Seq<char>),
    IntrospectionFailed(Seq<char>),
    StatementExecutionFailed { sql: Seq<char>, cause: Seq<char> },
}

impl View for SchemaError {
    type V = SchemaErrorView;

    open spec fn view(&self) -> SchemaErrorView {
        match self {
            SchemaError::UnknownScalarType(name) => SchemaErrorView::UnknownScalarType(name@),
            SchemaError::UnmappableSqlType(name) => SchemaErrorView::UnmappableSqlType(name@),
            SchemaError::EmptyTableDefinition(name) => SchemaErrorView::EmptyTableDefinition(name@),
            SchemaError::MissingLength { column, table } => SchemaErrorView::MissingLength {
                column: column@,
                table: table@,
            },
            SchemaError::DuplicateIndexName(name) => SchemaErrorView::DuplicateIndexName(name@),
            SchemaError::UndeclaredIndexColumn(name) => SchemaErrorView::UndeclaredIndexColumn(
                name@,
            ),
            SchemaError::IntrospectionFailed(what) => SchemaErrorView::IntrospectionFailed(what@),
            SchemaError::StatementExecutionFailed { sql, cause } => {
                SchemaErrorView::StatementExecutionFailed { sql: sql@, cause: cause@ }
            },
        }
    }
}

impl Clone for SchemaError {
    fn clone(&self) -> (r: Self)
        ensures
            r@ == self@,
    {
        match self {
            SchemaError::UnknownScalarType(name) => SchemaError::UnknownScalarType(name.clone()),
            SchemaError::UnmappableSqlType(name) => SchemaError::UnmappableSqlType(name.clone()),
            SchemaError::EmptyTableDefinition(name) => SchemaError::EmptyTableDefinition(
                name.clone(),
            ),
            SchemaError::MissingLength { column, table } => SchemaError::MissingLength {
                column: column.clone(),
                table: table.clone(),
            },
            SchemaError::DuplicateIndexName(name) => SchemaError::DuplicateIndexName(name.clone()),
            SchemaError::UndeclaredIndexColumn(name) => SchemaError::UndeclaredIndexColumn(
                name.clone(),
            ),
            SchemaError::IntrospectionFailed(what) => SchemaError::IntrospectionFailed(
                what.clone(),
            ),
            SchemaError::StatementExecutionFailed { sql, cause } => {
                SchemaError::StatementExecutionFailed { sql: sql.clone(), cause: cause.clone() }
            },
        }
    }
}

} // verus!
