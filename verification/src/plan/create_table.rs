//! Lowering `CREATE TABLE` statements.

use crate::ast::{ColumnDef, Statement};
use crate::catalog::error::CatalogErrorV;
use crate::catalog::schema::{
    lemma_schema_of, lemma_schema_of_prefix_err, spec_schema_of, ColumnV, Schema,
};
use crate::catalog::{catalog_contains, Catalog, TableV};
use crate::data::types::DataType;
use crate::error::{res_view, Error, ErrorV};
use crate::logical_plan::{LogicalPlan, LogicalPlanV};
use crate::plan::datatype::{datatype_from_sql, spec_datatype_from_sql};
use crate::plan::error::PlanErrorV;
use crate::plan::object_name_to_table_name::{
    object_name_to_table_name, spec_object_name_to_table_name,
};
use vstd::prelude::*;

verus! {

/// The name/datatype pairs of a column list; the first untranslatable
/// datatype is the error.
pub open spec fn spec_columns_to_fields(cols: Seq<ColumnDef>) -> Result<
    Seq<(Seq<char>, DataType)>,
    PlanErrorV,
>
    decreases cols.len(),
{
    if cols.len() == 0 {
        Ok(Seq::empty())
    } else {
        match spec_columns_to_fields(cols.drop_last()) {
            Err(e) => Err(e),
            Ok(fields) => match spec_datatype_from_sql(cols.last().data_type) {
                Err(e) => Err(e),
                Ok(dt) => Ok(fields.push((cols.last().name@, dt))),
            },
        }
    }
}

/// An error on a prefix of the columns is the error on all of them.
proof fn lemma_columns_to_fields_prefix_err(cols: Seq<ColumnDef>, m: int)
    requires
        0 <= m <= cols.len(),
        spec_columns_to_fields(cols.take(m)) is Err,
    ensures
        spec_columns_to_fields(cols) == spec_columns_to_fields(cols.take(m)),
    decreases cols.len() - m,
{
    if m < cols.len() {
        assert(cols.take(m + 1).drop_last() =~= cols.take(m));
        lemma_columns_to_fields_prefix_err(cols, m + 1);
    } else {
        assert(cols.take(m) =~= cols);
    }
}

/// The schema a column list denotes: translate each datatype, then check
/// the names are pairwise distinct.
pub open spec fn spec_columns_schema(cols: Seq<ColumnDef>) -> Result<Seq<ColumnV>, ErrorV> {
    match spec_columns_to_fields(cols) {
        Err(e) => Err(ErrorV::PlanError(e)),
        Ok(fields) => match spec_schema_of(fields) {
            Err(e) => Err(ErrorV::CatalogError(e)),
            Ok(s) => Ok(s),
        },
    }
}

/// Build the schema a column list denotes.
fn columns_to_schema(columns: &Vec<ColumnDef>) -> (r: Result<Schema, Error>)
    ensures
        res_view(r) == spec_columns_schema(columns@),
        r matches Ok(s) ==> s.wf(),
{
    let ghost cv = columns@;
    let n = columns.len();
    let mut fields: Vec<(String, DataType)> = Vec::new();
    proof {
        assert(cv.take(0) =~= Seq::<ColumnDef>::empty());
        assert(fields.deep_view() =~= Seq::<(Seq<char>, DataType)>::empty());
    }
    for i in 0..n
        invariant
            cv == columns@,
            n == cv.len(),
            spec_columns_to_fields(cv.take(i as int)) == Ok::<
                Seq<(Seq<char>, DataType)>,
                PlanErrorV,
            >(fields.deep_view()),
    {
        proof {
            assert(cv.take(i + 1).drop_last() =~= cv.take(i as int));
            assert(cv.take(i + 1).last() == cv[i as int]);
        }
        match datatype_from_sql(&columns[i].data_type) {
            Err(e) => {
                proof {
                    lemma_columns_to_fields_prefix_err(cv, i + 1);
                }
                return Err(Error::PlanError(e));
            },
            Ok(dt) => {
                proof {
                    assert(fields.deep_view().len() == fields@.len());
                }
                let name = columns[i].name.clone();
                let ghost pair = (name@, dt);
                let ghost prev = fields@;
                fields.push((name, dt));
                proof {
                    assert(fields@.len() == prev.len() + 1);
                    assert(fields@[prev.len() as int].deep_view() == pair);
                    assert(forall|j: int| 0 <= j < prev.len() ==> fields@[j] == prev[j]);
                    assert(fields.deep_view() =~= spec_columns_to_fields(
                        cv.take(i as int),
                    )->Ok_0.push(pair));
                }
            },
        }
    }
    proof {
        assert(cv.take(n as int) =~= cv);
        lemma_schema_of(fields.deep_view());
    }
    match Schema::new_with_duplicate_check(fields) {
        Ok(s) => Ok(s),
        Err(e) => Err(Error::CatalogError(e)),
    }
}

/// The table name and schema a `CREATE TABLE` statement declares.
pub open spec fn spec_create_table_to_name_schema(stmt: Statement) -> Result<
    (Seq<char>, Seq<ColumnV>),
    ErrorV,
>
    recommends
        stmt is CreateTable,
{
    match stmt {
        Statement::CreateTable { name, columns, display } => {
            match spec_object_name_to_table_name(name) {
                Err(e) => Err(ErrorV::PlanError(e)),
                Ok(nm) => match spec_columns_schema(columns@) {
                    Err(e) => Err(e),
                    Ok(cols) => if cols.len() == 0 {
                        Err(
                            ErrorV::PlanError(
                                PlanErrorV::Unimplemented(
                                    crate::plan::error::UnimplementedFeatureV::Statement {
                                        statement: display@,
                                    },
                                ),
                            ),
                        )
                    } else {
                        Ok((nm, cols))
                    },
                },
            }
        },
        _ => arbitrary(),
    }
}

/// Parse a `CREATE TABLE` statement into the table name and its schema;
/// used when the catalog is rebuilt at startup.
pub fn create_table_to_name_schema(stmt: &Statement) -> (r: Result<(String, Schema), Error>)
    requires
        stmt is CreateTable,
    ensures
        res_view(r) == spec_create_table_to_name_schema(*stmt),
        r matches Ok(p) ==> p.1.wf() && p.1@.len() >= 1,
{
    match stmt {
        Statement::CreateTable { name, columns, display } => {
            match object_name_to_table_name(name) {
                Err(e) => Err(Error::PlanError(e)),
                Ok(nm) => match columns_to_schema(columns) {
                    Err(e) => Err(e),
                    Ok(schema) => if schema.n_columns() == 0 {
                        Err(
                            Error::PlanError(
                                crate::plan::error::PlanError::Unimplemented(
                                    crate::plan::error::UnimplementedFeature::Statement {
                                        statement: display.clone(),
                                    },
                                ),
                            ),
                        )
                    } else {
                        Ok((nm, schema))
                    },
                },
            }
        },
        _ => {
            proof {
                assert(false);
            }
            Err(Error::StorageError { message: String::new() })
        },
    }
}

/// The logical plan of a `CREATE TABLE` statement: reject a registered
/// name with *table-exists*, translate the columns, and record the
/// statement's SQL text for the catalog.
pub open spec fn spec_convert_create(catalog: Seq<TableV>, stmt: Statement) -> Result<
    LogicalPlanV,
    ErrorV,
>
    recommends
        stmt is CreateTable,
{
    match stmt {
        Statement::CreateTable { name, columns, display } => {
            match spec_object_name_to_table_name(name) {
                Err(e) => Err(ErrorV::PlanError(e)),
                Ok(nm) => if catalog_contains(catalog, nm) {
                    Err(ErrorV::CatalogError(CatalogErrorV::TableExists { name: nm }))
                } else {
                    match spec_columns_schema(columns@) {
                        Err(e) => Err(e),
                        Ok(cols) => if cols.len() == 0 {
                            Err(
                                ErrorV::PlanError(
                                    PlanErrorV::Unimplemented(
                                        crate::plan::error::UnimplementedFeatureV::Statement {
                                            statement: display@,
                                        },
                                    ),
                                ),
                            )
                        } else {
                            Ok(
                                LogicalPlanV::CreateTable {
                                    name: nm,
                                    schema: cols,
                                    pk: 0,
                                    sql: display@,
                                },
                            )
                        },
                    }
                },
            }
        },
        _ => arbitrary(),
    }
}

/// Lower a `CREATE TABLE` statement.
pub fn convert(catalog: &Catalog, stmt: &Statement) -> (r: Result<LogicalPlan, Error>)
    requires
        stmt is CreateTable,
    ensures
        res_view(r) == spec_convert_create(catalog@, *stmt),
{
    match stmt {
        Statement::CreateTable { name, columns, display } => {
            match object_name_to_table_name(name) {
                Err(e) => Err(Error::PlanError(e)),
                Ok(nm) => {
                    if catalog.contains_table(nm.as_str()) {
                        return Err(
                            crate::error::Error::CatalogError(
                                crate::catalog::error::CatalogError::TableExists { name: nm },
                            ),
                        );
                    }
                    match columns_to_schema(columns) {
                        Err(e) => Err(e),
                        Ok(schema) => if schema.n_columns() == 0 {
                            Err(
                                Error::PlanError(
                                    crate::plan::error::PlanError::Unimplemented(
                                        crate::plan::error::UnimplementedFeature::Statement {
                                            statement: display.clone(),
                                        },
                                    ),
                                ),
                            )
                        } else {
                            Ok(
                                LogicalPlan::CreateTable {
                                    name: nm,
                                    schema,
                                    pk: 0,
                                    sql: display.clone(),
                                },
                            )
                        },
                    }
                },
            }
        },
        _ => {
            proof {
                assert(false);
            }
            Err(Error::StorageError { message: String::new() })
        },
    }
}

} // verus!
