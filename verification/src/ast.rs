//! The SQL abstract syntax tree the planner consumes.
//!
//! The parser is an external collaborator: it turns PostgreSQL-dialect text
//! into this tree at the session edge.  The tree holds, as plain values,
//! exactly what the planner reads; constructs the planner does not support
//! arrive as `Other` variants carrying their display text, so that the
//! planner can name them in *unimplemented* errors.

use vstd::prelude::*;

verus! {

/// A dotted object name, such as a table name; one part per segment.
#[derive(Debug)]
pub struct ObjectName(pub Vec<String>);

/// A column datatype as written in SQL.
#[derive(Debug)]
pub enum SqlDataType {
    Bool,
    Int64,
    BigInt,
    Float64,
    Double,
    Timestamp,
    StringType,
    Text,
    /// Any other SQL datatype, by its display text.
    Other(String),
}

/// A literal value as written in SQL.
#[derive(Debug)]
pub enum SqlValue {
    /// A numeric literal: its source text and, when the text denotes a
    /// non-integer, the IEEE 754 bit pattern of the 64-bit float it parses
    /// to.  The embedder computes the bits; float arithmetic stays outside
    /// the verified core.
    Number { text: String, float_bits: Option<u64> },
    SingleQuotedString(String),
    DoubleQuotedString(String),
    DollarQuotedString(String),
    NationalStringLiteral(String),
    HexStringLiteral(String),
    EscapedStringLiteral(String),
    Placeholder(String),
    Boolean(bool),
    Null,
    /// Any other literal form, by its display text.
    Other(String),
}

/// A binary operator as written in SQL.
#[derive(Debug)]
pub enum SqlBinaryOperator {
    Gt,
    GtEq,
    Lt,
    LtEq,
    Eq,
    NotEq,
    Plus,
    Minus,
    And,
    Or,
    /// Any other operator, by its display text.
    Other(String),
}

/// An expression as written in SQL.
#[derive(Debug)]
pub enum SqlExpr {
    /// A bare identifier: a column reference.
    Identifier(String),
    Value(SqlValue),
    BinaryOp { left: Box<SqlExpr>, op: SqlBinaryOperator, right: Box<SqlExpr> },
    /// Any other expression form, by its display text.
    Other(String),
}

/// One column of a `CREATE TABLE` statement.
#[derive(Debug)]
pub struct ColumnDef {
    pub name: String,
    pub data_type: SqlDataType,
}

/// One item of a `SELECT` projection list.
#[derive(Debug)]
pub enum SelectItem {
    UnnamedExpr(SqlExpr),
    ExprWithAlias { expr: SqlExpr, alias: String },
    Wildcard,
    QualifiedWildcard,
}

/// What a `FROM` item names.
#[derive(Debug)]
pub enum TableFactor {
    Table(ObjectName),
    /// Any other relation form, by its display text.
    Other(String),
}

/// One `FROM` item with its joins; the planner only supports join-free items.
#[derive(Debug)]
pub struct TableWithJoins {
    pub relation: TableFactor,
    pub has_joins: bool,
}

/// The rows of a `VALUES` source.
#[derive(Debug)]
pub struct Values {
    pub rows: Vec<Vec<SqlExpr>>,
}

/// A `SELECT` body.
#[derive(Debug)]
pub struct Select {
    pub projection: Vec<SelectItem>,
    pub from: Vec<TableWithJoins>,
    pub selection: Option<SqlExpr>,
}

/// The body of a query or of an `INSERT` source.
#[derive(Debug)]
pub enum SetExpr {
    Select(Box<Select>),
    Values(Values),
    /// Any other body form, by its display text.
    Other(String),
}

/// A query: a body with optional `LIMIT` and `OFFSET`.
#[derive(Debug)]
pub struct Query {
    pub body: SetExpr,
    pub limit: Option<SqlExpr>,
    pub offset: Option<SqlExpr>,
}

/// A SQL statement.
#[derive(Debug)]
pub enum Statement {
    /// `CREATE TABLE name (columns...)`; `display` is the statement's SQL
    /// text, which the catalog persists to rebuild itself at startup.
    CreateTable { name: ObjectName, columns: Vec<ColumnDef>, display: String },
    /// `INSERT INTO table_name <source>`; `display` names the statement in
    /// *unimplemented* errors.
    Insert { table_name: ObjectName, source: Option<Query>, display: String },
    /// A query; `display` names the statement in *unimplemented* errors.
    Query { query: Query, display: String },
    Explain { statement: Box<Statement> },
    ExplainTable { table_name: ObjectName },
    ShowTables,
    /// Any other statement, by its display text.
    Other(String),
}

} // verus!
