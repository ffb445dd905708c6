//! Lowering `EXPLAIN <table>` statements.

use crate::ast::Statement;
use crate::catalog::Catalog;
use crate::error::{res_view, Error, ErrorV};
use crate::logical_plan::{LogicalPlan, LogicalPlanV};
use crate::plan::object_name_to_table_name::{
    object_name_to_table_name, spec_object_name_to_table_name,
};
use vstd::prelude::*;

verus! {

/// The logical plan of an `EXPLAIN <table>` statement: describe the named
/// table.  A missing table surfaces at execution, not here.
pub open spec fn spec_convert_explain_table(stmt: Statement) -> Result<LogicalPlanV, ErrorV>
    recommends
        stmt is ExplainTable,
{
    match stmt {
        Statement::ExplainTable { table_name } => {
            match spec_object_name_to_table_name(table_name) {
                Err(e) => Err(ErrorV::PlanError(e)),
                Ok(nm) => Ok(LogicalPlanV::DescribeTable { name: nm }),
            }
        },
        _ => arbitrary(),
    }
}

/// Lower an `EXPLAIN <table>` statement.
pub fn convert(_catalog: &Catalog, stmt: &Statement) -> (r: Result<LogicalPlan, Error>)
    requires
        stmt is ExplainTable,
    ensures
        res_view(r) == spec_convert_explain_table(*stmt),
{
    match stmt {
        Statement::ExplainTable { table_name } => {
            match object_name_to_table_name(table_name) {
                Err(e) => Err(Error::PlanError(e)),
                Ok(nm) => Ok(LogicalPlan::DescribeTable { name: nm }),
            }
        },
        _ => {
            proof {
                assert(false);
            }
            Err(Error::StorageError { message: String::new() })
        },
    }
}

} // verus!
