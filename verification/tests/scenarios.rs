//! End-to-end sessions: SQL text through the parser collaborator into the
//! verified pipeline, against a real store in a temporary directory.

use camino_tempfile::Utf8TempDir;
use sqlparser::ast::BinaryOperator as B;
use sqlparser::ast::DataType as D;
use sqlparser::ast::Expr as E;
use sqlparser::ast::SelectItem as S;
use sqlparser::ast::Statement as St;
use sqlparser::ast::Value as V;
use sqlparser::dialect::PostgreSqlDialect;
use sqlparser::parser::Parser;
use vinyldb::ast;
use vinyldb::data::tuple::Tuple;
use vinyldb::data::types::{Data, DataType};
use vinyldb::error::Error;
use vinyldb::logical_plan::LogicalPlan;
use vinyldb::VinylDB;

fn conv_object_name(n: sqlparser::ast::ObjectName) -> ast::ObjectName {
    ast::ObjectName(
        n.0.into_iter()
            .map(|p| match p {
                sqlparser::ast::ObjectNamePart::Identifier(id) => id.value,
                other => other.to_string(),
            })
            .collect(),
    )
}

fn conv_datatype(d: sqlparser::ast::DataType) -> ast::SqlDataType {
    match d {
        D::Bool | D::Boolean => ast::SqlDataType::Bool,
        D::Int64 => ast::SqlDataType::Int64,
        D::BigInt(_) => ast::SqlDataType::BigInt,
        D::Float64 => ast::SqlDataType::Float64,
        D::Double(_) => ast::SqlDataType::Double,
        D::Timestamp(_, _) => ast::SqlDataType::Timestamp,
        D::String(_) => ast::SqlDataType::StringType,
        D::Text => ast::SqlDataType::Text,
        other => ast::SqlDataType::Other(other.to_string()),
    }
}

fn conv_value(v: sqlparser::ast::Value) -> ast::SqlValue {
    match v {
        V::Number(text, _) => {
            let float_bits = text.parse::<f64>().ok().map(f64::to_bits);
            ast::SqlValue::Number { text, float_bits }
        },
        V::SingleQuotedString(s) => ast::SqlValue::SingleQuotedString(s),
        V::DoubleQuotedString(s) => ast::SqlValue::DoubleQuotedString(s),
        V::DollarQuotedString(s) => ast::SqlValue::DollarQuotedString(s.value),
        V::NationalStringLiteral(s) => ast::SqlValue::NationalStringLiteral(s),
        V::HexStringLiteral(s) => ast::SqlValue::HexStringLiteral(s),
        V::EscapedStringLiteral(s) => ast::SqlValue::EscapedStringLiteral(s),
        V::Placeholder(s) => ast::SqlValue::Placeholder(s),
        V::Boolean(b) => ast::SqlValue::Boolean(b),
        V::Null => ast::SqlValue::Null,
        other => ast::SqlValue::Other(other.to_string()),
    }
}

fn conv_op(op: sqlparser::ast::BinaryOperator) -> ast::SqlBinaryOperator {
    match op {
        B::Gt => ast::SqlBinaryOperator::Gt,
        B::GtEq => ast::SqlBinaryOperator::GtEq,
        B::Lt => ast::SqlBinaryOperator::Lt,
        B::LtEq => ast::SqlBinaryOperator::LtEq,
        B::Eq => ast::SqlBinaryOperator::Eq,
        B::NotEq => ast::SqlBinaryOperator::NotEq,
        B::Plus => ast::SqlBinaryOperator::Plus,
        B::Minus => ast::SqlBinaryOperator::Minus,
        B::And => ast::SqlBinaryOperator::And,
        B::Or => ast::SqlBinaryOperator::Or,
        other => ast::SqlBinaryOperator::Other(other.to_string()),
    }
}

fn conv_expr(e: sqlparser::ast::Expr) -> ast::SqlExpr {
    match e {
        E::Identifier(id) => ast::SqlExpr::Identifier(id.value),
        E::Value(v) => ast::SqlExpr::Value(conv_value(v.value)),
        E::BinaryOp { left, op, right } => ast::SqlExpr::BinaryOp {
            left: Box::new(conv_expr(*left)),
            op: conv_op(op),
            right: Box::new(conv_expr(*right)),
        },
        other => ast::SqlExpr::Other(other.to_string()),
    }
}

fn conv_select_item(i: sqlparser::ast::SelectItem) -> ast::SelectItem {
    match i {
        S::UnnamedExpr(e) => ast::SelectItem::UnnamedExpr(conv_expr(e)),
        S::ExprWithAlias { expr, alias } => ast::SelectItem::ExprWithAlias {
            expr: conv_expr(expr),
            alias: alias.value,
        },
        S::Wildcard(_) => ast::SelectItem::Wildcard,
        S::QualifiedWildcard(_, _) => ast::SelectItem::QualifiedWildcard,
        other => ast::SelectItem::UnnamedExpr(ast::SqlExpr::Other(other.to_string())),
    }
}

fn conv_select(s: sqlparser::ast::Select) -> ast::Select {
    ast::Select {
        projection: s.projection.into_iter().map(conv_select_item).collect(),
        from: s
            .from
            .into_iter()
            .map(|twj| ast::TableWithJoins {
                has_joins: !twj.joins.is_empty(),
                relation: match twj.relation {
                    sqlparser::ast::TableFactor::Table { name, .. } => {
                        ast::TableFactor::Table(conv_object_name(name))
                    },
                    other => ast::TableFactor::Other(other.to_string()),
                },
            })
            .collect(),
        selection: s.selection.map(conv_expr),
    }
}

fn conv_query(q: sqlparser::ast::Query) -> ast::Query {
    let (limit, offset) = match q.limit_clause {
        Some(sqlparser::ast::LimitClause::LimitOffset { limit, offset, .. }) => {
            (limit.map(conv_expr), offset.map(|o| conv_expr(o.value)))
        },
        _ => (None, None),
    };
    let body = match *q.body {
        sqlparser::ast::SetExpr::Select(sel) => ast::SetExpr::Select(Box::new(conv_select(*sel))),
        sqlparser::ast::SetExpr::Values(v) => ast::SetExpr::Values(ast::Values {
            rows: v
                .rows
                .into_iter()
                .map(|row| row.content.into_iter().map(conv_expr).collect())
                .collect(),
        }),
        other => ast::SetExpr::Other(other.to_string()),
    };
    ast::Query { body, limit, offset }
}

fn conv_statement(s: sqlparser::ast::Statement) -> ast::Statement {
    let display = s.to_string();
    match s {
        St::CreateTable(ct) => ast::Statement::CreateTable {
            name: conv_object_name(ct.name),
            columns: ct
                .columns
                .into_iter()
                .map(|c| ast::ColumnDef {
                    name: c.name.value,
                    data_type: conv_datatype(c.data_type),
                })
                .collect(),
            display,
        },
        St::Insert(ins) => ast::Statement::Insert {
            table_name: match ins.table {
                sqlparser::ast::TableObject::TableName(n) => conv_object_name(n),
                other => ast::ObjectName(vec![other.to_string()]),
            },
            source: ins.source.map(|q| conv_query(*q)),
            display,
        },
        St::Query(q) => ast::Statement::Query { query: conv_query(*q), display },
        St::Explain { statement, .. } => ast::Statement::Explain {
            statement: Box::new(conv_statement(*statement)),
        },
        St::ExplainTable { table_name, .. } => ast::Statement::ExplainTable {
            table_name: conv_object_name(table_name),
        },
        St::ShowTables { .. } => ast::Statement::ShowTables,
        other => ast::Statement::Other(other.to_string()),
    }
}

fn parse_one(sql: &str) -> ast::Statement {
    let mut stmts = Parser::parse_sql(&PostgreSqlDialect {}, sql).expect("should parse");
    assert_eq!(stmts.len(), 1);
    conv_statement(stmts.pop().unwrap())
}

fn run(db: &mut VinylDB, sql: &str) -> Result<Vec<Tuple>, Error> {
    let stmt = parse_one(sql);
    db.sql(&stmt)
}

fn open_db(dir: &Utf8TempDir) -> VinylDB {
    VinylDB::new(dir.path().as_str().to_string()).expect("should open")
}

fn string_row(s: &str) -> Tuple {
    Tuple::new(vec![Data::String(s.to_string())])
}

#[test]
fn create_table_then_show_tables() {
    let dir = Utf8TempDir::new().unwrap();
    let mut db = open_db(&dir);
    let rows = run(&mut db, "CREATE TABLE t (id INT64, name STRING);").unwrap();
    assert!(rows.is_empty());
    let rows = run(&mut db, "SHOW TABLES;").unwrap();
    assert_eq!(rows, vec![string_row("t")]);
}

#[test]
fn duplicate_create_table_is_rejected() {
    let dir = Utf8TempDir::new().unwrap();
    let mut db = open_db(&dir);
    run(&mut db, "CREATE TABLE t (id INT64);").unwrap();
    let second = run(&mut db, "CREATE TABLE t (id INT64);");
    match second {
        Err(Error::CatalogError(
            vinyldb::catalog::error::CatalogError::TableExists { name },
        )) => assert_eq!(name, "t"),
        other => panic!("expected table-exists, got {:?}", other),
    }
    let rows = run(&mut db, "SHOW TABLES;").unwrap();
    assert_eq!(rows, vec![string_row("t")]);
}

#[test]
fn insert_then_select_all() {
    let dir = Utf8TempDir::new().unwrap();
    let mut db = open_db(&dir);
    run(&mut db, "CREATE TABLE s (id INT64, ok BOOL);").unwrap();
    let rows = run(&mut db, "INSERT INTO s VALUES (1, true), (2, false);").unwrap();
    assert!(rows.is_empty());
    let rows = run(&mut db, "SELECT * FROM s;").unwrap();
    assert_eq!(
        rows,
        vec![
            Tuple::new(vec![Data::Int64(1), Data::Bool(true)]),
            Tuple::new(vec![Data::Int64(2), Data::Bool(false)]),
        ]
    );
}

#[test]
fn filtered_projection_with_limit() {
    let dir = Utf8TempDir::new().unwrap();
    let mut db = open_db(&dir);
    run(&mut db, "CREATE TABLE s (id INT64, ok BOOL);").unwrap();
    run(&mut db, "INSERT INTO s VALUES (1, true), (2, false);").unwrap();
    let rows = run(&mut db, "SELECT id FROM s WHERE ok = true LIMIT 10;").unwrap();
    assert_eq!(rows, vec![Tuple::new(vec![Data::Int64(1)])]);

    let stmt = parse_one("SELECT id FROM s WHERE ok = true LIMIT 10;");
    let plan = db.context().statement_to_logical_plan(&stmt).unwrap();
    match plan {
        LogicalPlan::Projection { schema, .. } => {
            assert_eq!(schema.column_names(), vec![String::from("id")]);
            assert_eq!(schema.column_datatypes(), vec![DataType::Int64]);
        },
        other => panic!("expected a projection, got {:?}", other),
    }
}

#[test]
fn constant_select_with_alias() {
    let dir = Utf8TempDir::new().unwrap();
    let mut db = open_db(&dir);
    let rows = run(&mut db, "SELECT 1 + 2 AS three;").unwrap();
    assert_eq!(rows, vec![Tuple::new(vec![Data::Int64(3)])]);

    let stmt = parse_one("SELECT 1 + 2 AS three;");
    let plan = db.context().statement_to_logical_plan(&stmt).unwrap();
    match plan {
        LogicalPlan::Projection { schema, .. } => {
            assert_eq!(schema.column_names(), vec![String::from("three")]);
            assert_eq!(schema.column_datatypes(), vec![DataType::Int64]);
        },
        other => panic!("expected a projection, got {:?}", other),
    }
}

#[test]
fn explain_lists_the_operator_chain() {
    let dir = Utf8TempDir::new().unwrap();
    let mut db = open_db(&dir);
    run(&mut db, "CREATE TABLE s (id INT64, ok BOOL);").unwrap();
    let rows = run(&mut db, "EXPLAIN SELECT * FROM s WHERE id > 0;").unwrap();
    assert_eq!(
        rows,
        vec![
            string_row("ProjectionExec"),
            string_row("FilterExec"),
            string_row("TableScanExec"),
        ]
    );
}

#[test]
fn describe_table_lists_columns() {
    let dir = Utf8TempDir::new().unwrap();
    let mut db = open_db(&dir);
    run(&mut db, "CREATE TABLE s (id INT64, ok BOOL);").unwrap();
    let rows = run(&mut db, "DESCRIBE s;").unwrap();
    assert_eq!(
        rows,
        vec![
            Tuple::new(vec![
                Data::String("id".into()),
                Data::String("INT64".into()),
                Data::String("YES".into()),
                Data::String("YES".into()),
            ]),
            Tuple::new(vec![
                Data::String("ok".into()),
                Data::String("BOOL".into()),
                Data::String("YES".into()),
                Data::String("NO".into()),
            ]),
        ]
    );
}

#[test]
fn select_from_missing_table_is_rejected() {
    let dir = Utf8TempDir::new().unwrap();
    let mut db = open_db(&dir);
    let r = run(&mut db, "SELECT * FROM nope;");
    match r {
        Err(Error::CatalogError(
            vinyldb::catalog::error::CatalogError::TableDoesNotExist { name },
        )) => assert_eq!(name, "nope"),
        other => panic!("expected table-missing, got {:?}", other),
    }
}

#[test]
fn negative_limit_is_rejected() {
    let dir = Utf8TempDir::new().unwrap();
    let mut db = open_db(&dir);
    run(&mut db, "CREATE TABLE s (id INT64);").unwrap();
    let r = run(&mut db, "SELECT * FROM s LIMIT 1 - 2;");
    match r {
        Err(Error::PlanError(vinyldb::plan::error::PlanError::NonUintLimitOffset {
            ..
        })) => {},
        other => panic!("expected non-uint-limit, got {:?}", other),
    }
}

#[test]
fn wildcard_without_from_is_rejected() {
    let dir = Utf8TempDir::new().unwrap();
    let mut db = open_db(&dir);
    let r = run(&mut db, "SELECT *;");
    match r {
        Err(Error::PlanError(vinyldb::plan::error::PlanError::WildcardWithoutFrom)) => {},
        other => panic!("expected wildcard-without-from, got {:?}", other),
    }
}

#[test]
fn insert_arity_mismatch_is_rejected() {
    let dir = Utf8TempDir::new().unwrap();
    let mut db = open_db(&dir);
    run(&mut db, "CREATE TABLE s (id INT64, ok BOOL);").unwrap();
    let r = run(&mut db, "INSERT INTO s VALUES (1);");
    match r {
        Err(Error::PlanError(
            vinyldb::plan::error::PlanError::MismatchedNumberColumns { expected, found, .. },
        )) => {
            assert_eq!(expected, 2);
            assert_eq!(found, 1);
        },
        other => panic!("expected arity mismatch, got {:?}", other),
    }
}

#[test]
fn insert_type_mismatch_is_rejected() {
    let dir = Utf8TempDir::new().unwrap();
    let mut db = open_db(&dir);
    run(&mut db, "CREATE TABLE s (id INT64, ok BOOL);").unwrap();
    let r = run(&mut db, "INSERT INTO s VALUES (true, true);");
    match r {
        Err(Error::PlanError(vinyldb::plan::error::PlanError::MismatchedType {
            column_idx,
            expected,
            found,
            ..
        })) => {
            assert_eq!(column_idx, 0);
            assert_eq!(expected, DataType::Int64);
            assert_eq!(found, DataType::Bool);
        },
        other => panic!("expected type mismatch, got {:?}", other),
    }
}

#[test]
fn offset_skips_rows() {
    let dir = Utf8TempDir::new().unwrap();
    let mut db = open_db(&dir);
    run(&mut db, "CREATE TABLE s (id INT64);").unwrap();
    run(&mut db, "INSERT INTO s VALUES (1), (2), (3);").unwrap();
    let rows = run(&mut db, "SELECT * FROM s LIMIT 1 OFFSET 1;").unwrap();
    assert_eq!(rows, vec![Tuple::new(vec![Data::Int64(2)])]);
    let rows = run(&mut db, "SELECT * FROM s OFFSET 2;").unwrap();
    assert_eq!(rows, vec![Tuple::new(vec![Data::Int64(3)])]);
    let rows = run(&mut db, "SELECT * FROM s LIMIT 99;").unwrap();
    assert_eq!(rows.len(), 3);
}

#[test]
fn restart_preserves_catalog_and_rows() {
    let dir = Utf8TempDir::new().unwrap();
    {
        let mut db = open_db(&dir);
        run(&mut db, "CREATE TABLE s (id INT64, ok BOOL);").unwrap();
        run(&mut db, "INSERT INTO s VALUES (1, true), (2, false);").unwrap();
    }
    let mut db = open_db(&dir);
    let sqls = db.stored_create_sqls().unwrap();
    let stmts: Vec<vinyldb::ast::Statement> = sqls.iter().map(|s| parse_one(s)).collect();
    db.bootstrap(&stmts).unwrap();

    let rows = run(&mut db, "SHOW TABLES;").unwrap();
    assert_eq!(rows, vec![string_row("s")]);
    let rows = run(&mut db, "SELECT * FROM s;").unwrap();
    assert_eq!(
        rows,
        vec![
            Tuple::new(vec![Data::Int64(1), Data::Bool(true)]),
            Tuple::new(vec![Data::Int64(2), Data::Bool(false)]),
        ]
    );
}

#[test]
fn duplicate_primary_key_is_fatal() {
    let dir = Utf8TempDir::new().unwrap();
    let mut db = open_db(&dir);
    run(&mut db, "CREATE TABLE s (id INT64);").unwrap();
    run(&mut db, "INSERT INTO s VALUES (1);").unwrap();
    let r = run(&mut db, "INSERT INTO s VALUES (1);");
    match r {
        Err(Error::StorageError { message }) => {
            assert_eq!(message, "duplicate primary key");
        },
        other => panic!("expected a fatal storage error, got {:?}", other),
    }
}

#[test]
fn unknown_column_is_rejected() {
    let dir = Utf8TempDir::new().unwrap();
    let mut db = open_db(&dir);
    run(&mut db, "CREATE TABLE s (id INT64);").unwrap();
    let r = run(&mut db, "SELECT nope FROM s;");
    match r {
        Err(Error::CatalogError(
            vinyldb::catalog::error::CatalogError::ColumnDoesNotExist { column, candidate },
        )) => {
            assert_eq!(column, "nope");
            assert_eq!(candidate, vec![String::from("id")]);
        },
        other => panic!("expected column-missing, got {:?}", other),
    }
}

#[test]
fn duplicate_column_is_rejected() {
    let dir = Utf8TempDir::new().unwrap();
    let mut db = open_db(&dir);
    let r = run(&mut db, "CREATE TABLE t (id INT64, id BOOL);");
    match r {
        Err(Error::CatalogError(
            vinyldb::catalog::error::CatalogError::ColumnExists { name },
        )) => assert_eq!(name, "id"),
        other => panic!("expected column-exists, got {:?}", other),
    }
}

#[test]
fn joins_are_unimplemented() {
    let dir = Utf8TempDir::new().unwrap();
    let mut db = open_db(&dir);
    run(&mut db, "CREATE TABLE a (id INT64);").unwrap();
    run(&mut db, "CREATE TABLE b (id INT64);").unwrap();
    let r = run(&mut db, "SELECT * FROM a JOIN b ON a.id = b.id;");
    match r {
        Err(Error::PlanError(vinyldb::plan::error::PlanError::Unimplemented(_))) => {},
        other => panic!("expected unimplemented, got {:?}", other),
    }
}

#[test]
fn dotted_table_names_are_unimplemented() {
    let dir = Utf8TempDir::new().unwrap();
    let mut db = open_db(&dir);
    let r = run(&mut db, "SELECT * FROM a.b;");
    match r {
        Err(Error::PlanError(vinyldb::plan::error::PlanError::Unimplemented(
            vinyldb::plan::error::UnimplementedFeature::MultiLevelTable { object_name },
        ))) => assert_eq!(object_name, "a.b"),
        other => panic!("expected multi-level-table, got {:?}", other),
    }
}

#[test]
fn unsupported_column_type_is_unimplemented() {
    let dir = Utf8TempDir::new().unwrap();
    let mut db = open_db(&dir);
    let r = run(&mut db, "CREATE TABLE t (x JSON);");
    match r {
        Err(Error::PlanError(vinyldb::plan::error::PlanError::Unimplemented(
            vinyldb::plan::error::UnimplementedFeature::DataType { .. },
        ))) => {},
        other => panic!("expected unimplemented datatype, got {:?}", other),
    }
}

#[test]
fn null_literals_are_unimplemented() {
    let dir = Utf8TempDir::new().unwrap();
    let mut db = open_db(&dir);
    run(&mut db, "CREATE TABLE s (id INT64);").unwrap();
    let r = run(&mut db, "INSERT INTO s VALUES (NULL);");
    match r {
        Err(Error::PlanError(vinyldb::plan::error::PlanError::Unimplemented(
            vinyldb::plan::error::UnimplementedFeature::Null,
        ))) => {},
        other => panic!("expected unimplemented NULL, got {:?}", other),
    }
}

#[test]
fn non_constant_select_without_from_is_rejected() {
    let dir = Utf8TempDir::new().unwrap();
    let mut db = open_db(&dir);
    let r = run(&mut db, "SELECT id;");
    match r {
        Err(Error::PlanError(
            vinyldb::plan::error::PlanError::NonConstantExprWithoutFrom { .. },
        )) => {},
        other => panic!("expected non-constant-without-from, got {:?}", other),
    }
}

#[test]
fn non_constant_limit_is_rejected() {
    let dir = Utf8TempDir::new().unwrap();
    let mut db = open_db(&dir);
    run(&mut db, "CREATE TABLE s (id INT64);").unwrap();
    let r = run(&mut db, "SELECT * FROM s LIMIT id;");
    match r {
        Err(Error::PlanError(vinyldb::plan::error::PlanError::ExprEvaluationError(
            vinyldb::plan::error::ExprEvaluationError::ExprIsNotConstant { .. },
        ))) => {},
        other => panic!("expected expr-is-not-constant, got {:?}", other),
    }
}

#[test]
fn non_boolean_predicate_is_rejected_at_execution() {
    let dir = Utf8TempDir::new().unwrap();
    let mut db = open_db(&dir);
    run(&mut db, "CREATE TABLE s (id INT64);").unwrap();
    run(&mut db, "INSERT INTO s VALUES (1);").unwrap();
    let r = run(&mut db, "SELECT * FROM s WHERE id + 1;");
    match r {
        Err(Error::PlanError(vinyldb::plan::error::PlanError::ExprEvaluationError(
            vinyldb::plan::error::ExprEvaluationError::PredicateNotBoolean { datatype },
        ))) => assert_eq!(datatype, DataType::Int64),
        other => panic!("expected predicate-not-boolean, got {:?}", other),
    }
}

#[test]
fn numeric_literals_pick_integer_then_float() {
    let dir = Utf8TempDir::new().unwrap();
    let mut db = open_db(&dir);
    let rows = run(&mut db, "SELECT 9223372036854775807;").unwrap();
    assert_eq!(rows, vec![Tuple::new(vec![Data::Int64(i64::MAX)])]);
    let rows = run(&mut db, "SELECT 1.5;").unwrap();
    assert_eq!(
        rows,
        vec![Tuple::new(vec![Data::Float64(1.5_f64.to_bits())])]
    );
    // A number beyond the 64-bit integer range falls through to the float.
    let rows = run(&mut db, "SELECT 12345678901234567890123;").unwrap();
    assert_eq!(
        rows,
        vec![Tuple::new(vec![Data::Float64(
            12345678901234567890123_f64.to_bits()
        )])]
    );
}

#[test]
fn untranslatable_number_is_a_conversion_error() {
    let v = ast::SqlValue::Number {
        text: "pi".to_string(),
        float_bits: None,
    };
    match vinyldb::plan::value2data::value_to_data(&v) {
        Err(vinyldb::plan::error::PlanError::ConversionError { val, to }) => {
            assert_eq!(val, "pi");
            assert_eq!(to, DataType::Float64);
        },
        other => panic!("expected conversion error, got {:?}", other),
    }
}
