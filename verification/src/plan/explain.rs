//! Lowering `EXPLAIN <statement>`.

use crate::ast::Statement;
use crate::catalog::Catalog;
use crate::error::{res_view, Error};
use crate::logical_plan::LogicalPlan;
use crate::plan::{spec_statement_to_logical_plan, statement_to_logical_plan};
use vstd::prelude::*;

verus! {

/// Lower an `EXPLAIN` statement: plan the inner statement and wrap it.
pub fn convert(catalog: &Catalog, stmt: &Statement) -> (r: Result<LogicalPlan, Error>)
    requires
        stmt is Explain,
    ensures
        res_view(r) == spec_statement_to_logical_plan(catalog@, *stmt),
    decreases stmt, 0int,
{
    match stmt {
        Statement::Explain { statement } => {
            match statement_to_logical_plan(catalog, statement) {
                Err(e) => Err(e),
                Ok(plan) => Ok(LogicalPlan::Explain { plan: Box::new(plan) }),
            }
        },
        _ => {
            proof {
                assert(false);
            }
            Err(Error::StorageError { message: String::new() })
        },
    }
}

} // verus!
