//! Lowering `SHOW TABLES` statements.

use crate::ast::Statement;
use crate::catalog::Catalog;
use crate::error::Error;
use crate::logical_plan::{LogicalPlan, LogicalPlanV};
use vstd::prelude::*;

verus! {

/// Lower a `SHOW TABLES` statement.
pub fn convert(_catalog: &Catalog, stmt: &Statement) -> (r: Result<LogicalPlan, Error>)
    requires
        stmt is ShowTables,
    ensures
        r matches Ok(p) && p@ == LogicalPlanV::ShowTables,
{
    Ok(LogicalPlan::ShowTables)
}

} // verus!
