//! Lowering SQL statements into logical plans.

pub mod create_table;
pub mod datatype;
pub mod error;
pub mod explain;
pub mod explain_table;
pub mod expr;
pub mod insert;
pub mod object_name_to_table_name;
pub mod op;
pub mod query;
pub mod show_tables;
pub mod value2data;
pub mod values2tuples;

use crate::ast::Statement;
use crate::catalog::{Catalog, TableV};
use crate::error::{res_view, Error, ErrorV};
use crate::logical_plan::{LogicalPlan, LogicalPlanV};
use crate::plan::error::{PlanErrorV, UnimplementedFeatureV};
use vstd::prelude::*;

verus! {

/// The logical plan a statement lowers to, by its kind; a statement of any
/// other kind is *unimplemented*.
pub open spec fn spec_statement_to_logical_plan(catalog: Seq<TableV>, stmt: Statement) -> Result<
    LogicalPlanV,
    ErrorV,
>
    decreases stmt,
{
    match stmt {
        Statement::CreateTable { .. } => create_table::spec_convert_create(catalog, stmt),
        Statement::Explain { statement } => {
            match spec_statement_to_logical_plan(catalog, *statement) {
                Err(e) => Err(e),
                Ok(p) => Ok(LogicalPlanV::Explain { plan: Box::new(p) }),
            }
        },
        Statement::ShowTables => Ok(LogicalPlanV::ShowTables),
        Statement::ExplainTable { .. } => explain_table::spec_convert_explain_table(stmt),
        Statement::Insert { .. } => insert::spec_convert_insert(catalog, stmt),
        Statement::Query { .. } => query::spec_convert_query(catalog, stmt),
        Statement::Other(text) => Err(
            ErrorV::PlanError(
                PlanErrorV::Unimplemented(UnimplementedFeatureV::Statement { statement: text@ }),
            ),
        ),
    }
}

/// Lower a SQL statement into a logical plan.
pub fn statement_to_logical_plan(catalog: &Catalog, stmt: &Statement) -> (r: Result<
    LogicalPlan,
    Error,
>)
    ensures
        res_view(r) == spec_statement_to_logical_plan(catalog@, *stmt),
    decreases stmt, 1int,
{
    match stmt {
        Statement::CreateTable { .. } => create_table::convert(catalog, stmt),
        Statement::Explain { .. } => explain::convert(catalog, stmt),
        Statement::ShowTables => show_tables::convert(catalog, stmt),
        Statement::ExplainTable { .. } => explain_table::convert(catalog, stmt),
        Statement::Insert { .. } => insert::convert(catalog, stmt),
        Statement::Query { .. } => query::convert(catalog, stmt),
        Statement::Other(text) => Err(
            Error::PlanError(
                crate::plan::error::PlanError::Unimplemented(
                    crate::plan::error::UnimplementedFeature::Statement {
                        statement: text.clone(),
                    },
                ),
            ),
        ),
    }
}

} // verus!
