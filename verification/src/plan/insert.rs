//! Lowering `INSERT` statements.

use crate::ast::{SetExpr, Statement};
use crate::catalog::error::CatalogErrorV;
use crate::catalog::{catalog_contains, lemma_table_index_of, Catalog, TableV};
use crate::error::{res_view, Error, ErrorV};
use crate::logical_plan::{LogicalPlan, LogicalPlanV};
use crate::plan::error::{PlanError, PlanErrorV, UnimplementedFeature, UnimplementedFeatureV};
use crate::plan::object_name_to_table_name::{
    object_name_to_table_name, spec_object_name_to_table_name,
};
use crate::plan::values2tuples::{spec_values_to_tuples, values_to_tuples};
use vstd::prelude::*;

verus! {

/// The logical plan of an `INSERT` statement: resolve the table, require a
/// `VALUES` source, and translate its rows.
pub open spec fn spec_convert_insert(catalog: Seq<TableV>, stmt: Statement) -> Result<
    LogicalPlanV,
    ErrorV,
>
    recommends
        stmt is Insert,
{
    match stmt {
        Statement::Insert { table_name, source, display } => {
            match spec_object_name_to_table_name(table_name) {
                Err(e) => Err(ErrorV::PlanError(e)),
                Ok(nm) => if !catalog_contains(catalog, nm) {
                    Err(ErrorV::CatalogError(CatalogErrorV::TableDoesNotExist { name: nm }))
                } else {
                    match source {
                        None => Err(
                            ErrorV::PlanError(
                                PlanErrorV::Unimplemented(
                                    UnimplementedFeatureV::Statement { statement: display@ },
                                ),
                            ),
                        ),
                        Some(query) => match query.body {
                            SetExpr::Values(values) => {
                                match spec_values_to_tuples(catalog, nm, values.rows@) {
                                    Err(e) => Err(e),
                                    Ok(rows) => Ok(LogicalPlanV::Insert { table: nm, rows }),
                                }
                            },
                            _ => Err(
                                ErrorV::PlanError(
                                    PlanErrorV::Unimplemented(
                                        UnimplementedFeatureV::Statement { statement: display@ },
                                    ),
                                ),
                            ),
                        },
                    }
                },
            }
        },
        _ => arbitrary(),
    }
}

/// Lower an `INSERT` statement.
pub fn convert(catalog: &Catalog, stmt: &Statement) -> (r: Result<LogicalPlan, Error>)
    requires
        stmt is Insert,
    ensures
        res_view(r) == spec_convert_insert(catalog@, *stmt),
{
    match stmt {
        Statement::Insert { table_name, source, display } => {
            let nm = match object_name_to_table_name(table_name) {
                Err(e) => {
                    return Err(Error::PlanError(e));
                },
                Ok(nm) => nm,
            };
            proof {
                lemma_table_index_of(catalog@, nm@);
            }
            if !catalog.contains_table(nm.as_str()) {
                return Err(
                    Error::CatalogError(
                        crate::catalog::error::CatalogError::TableDoesNotExist { name: nm },
                    ),
                );
            }
            match source {
                None => Err(
                    Error::PlanError(
                        PlanError::Unimplemented(
                            UnimplementedFeature::Statement { statement: display.clone() },
                        ),
                    ),
                ),
                Some(query) => match &query.body {
                    SetExpr::Values(values) => {
                        match values_to_tuples(catalog, nm.as_str(), &values.rows) {
                            Err(e) => Err(e),
                            Ok(rows) => Ok(LogicalPlan::Insert { table: nm, rows }),
                        }
                    },
                    _ => Err(
                        Error::PlanError(
                            PlanError::Unimplemented(
                                UnimplementedFeature::Statement { statement: display.clone() },
                            ),
                        ),
                    ),
                },
            }
        },
        _ => {
            proof {
                assert(false);
            }
            Err(Error::StorageError { message: String::new() })
        },
    }
}

} // verus!
