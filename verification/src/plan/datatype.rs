//! Translating SQL datatypes into core datatypes.

use crate::ast::SqlDataType;
use crate::data::types::DataType;
use crate::error::res_view;
use crate::plan::error::{PlanError, PlanErrorV, UnimplementedFeature, UnimplementedFeatureV};
use vstd::prelude::*;

verus! {

/// The core datatype a SQL datatype denotes: `BOOL`, `INT64`/`BIGINT`,
/// `FLOAT64`/`DOUBLE`, `TIMESTAMP`, `STRING`/`TEXT`; anything else is
/// *unimplemented*.
pub open spec fn spec_datatype_from_sql(ty: SqlDataType) -> Result<DataType, PlanErrorV> {
    match ty {
        SqlDataType::Bool => Ok(DataType::Bool),
        SqlDataType::Int64 => Ok(DataType::Int64),
        SqlDataType::BigInt => Ok(DataType::Int64),
        SqlDataType::Float64 => Ok(DataType::Float64),
        SqlDataType::Double => Ok(DataType::Float64),
        SqlDataType::Timestamp => Ok(DataType::Timestamp),
        SqlDataType::StringType => Ok(DataType::String),
        SqlDataType::Text => Ok(DataType::String),
        SqlDataType::Other(name) => Err(
            PlanErrorV::Unimplemented(UnimplementedFeatureV::DataType { ty: name@ }),
        ),
    }
}

/// Translate a SQL datatype into a core datatype.
pub fn datatype_from_sql(ty: &SqlDataType) -> (r: Result<DataType, PlanError>)
    ensures
        res_view(r) == spec_datatype_from_sql(*ty),
{
    match ty {
        SqlDataType::Bool => Ok(DataType::Bool),
        SqlDataType::Int64 => Ok(DataType::Int64),
        SqlDataType::BigInt => Ok(DataType::Int64),
        SqlDataType::Float64 => Ok(DataType::Float64),
        SqlDataType::Double => Ok(DataType::Float64),
        SqlDataType::Timestamp => Ok(DataType::Timestamp),
        SqlDataType::StringType => Ok(DataType::String),
        SqlDataType::Text => Ok(DataType::String),
        SqlDataType::Other(name) => Err(
            PlanError::Unimplemented(UnimplementedFeature::DataType { ty: name.clone() }),
        ),
    }
}

} // verus!
