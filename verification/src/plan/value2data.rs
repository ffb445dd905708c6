//! Translating SQL literals into scalar values.

use crate::ast::SqlValue;
use crate::data::types::{Data, DataType, DataVal};
use crate::error::res_view;
use crate::plan::error::{PlanError, PlanErrorV, UnimplementedFeature, UnimplementedFeatureV};
use crate::text::{parse_i64, spec_parse_i64};
use vstd::prelude::*;

verus! {

/// The scalar a SQL literal denotes.  A numeric literal is a 64-bit integer
/// when its text parses as one, otherwise the float its text denotes; a
/// number that is neither is a conversion error.  String-like literals
/// yield strings, `NULL` is *unimplemented*.
pub open spec fn spec_value_to_data(v: SqlValue) -> Result<DataVal, PlanErrorV> {
    match v {
        SqlValue::Number { text, float_bits } => match spec_parse_i64(text@) {
            Some(n) => Ok(DataVal::Int64(n)),
            None => match float_bits {
                Some(bits) => Ok(DataVal::Float64(bits)),
                None => Err(PlanErrorV::ConversionError { val: text@, to: DataType::Float64 }),
            },
        },
        SqlValue::SingleQuotedString(s) => Ok(DataVal::String(s@)),
        SqlValue::DoubleQuotedString(s) => Ok(DataVal::String(s@)),
        SqlValue::DollarQuotedString(s) => Ok(DataVal::String(s@)),
        SqlValue::NationalStringLiteral(s) => Ok(DataVal::String(s@)),
        SqlValue::HexStringLiteral(s) => Ok(DataVal::String(s@)),
        SqlValue::EscapedStringLiteral(s) => Ok(DataVal::String(s@)),
        SqlValue::Placeholder(s) => Ok(DataVal::String(s@)),
        SqlValue::Boolean(b) => Ok(DataVal::Bool(b)),
        SqlValue::Null => Err(PlanErrorV::Unimplemented(UnimplementedFeatureV::Null)),
        SqlValue::Other(s) => Err(
            PlanErrorV::Unimplemented(UnimplementedFeatureV::Expr { expr: s@ }),
        ),
    }
}

/// Translate a SQL literal into a scalar value.
pub fn value_to_data(v: &SqlValue) -> (r: Result<Data, PlanError>)
    ensures
        res_view(r) == spec_value_to_data(*v),
{
    match v {
        SqlValue::Number { text, float_bits } => match parse_i64(text.as_str()) {
            Some(n) => Ok(Data::Int64(n)),
            None => match float_bits {
                Some(bits) => Ok(Data::Float64(*bits)),
                None => Err(
                    PlanError::ConversionError { val: text.clone(), to: DataType::Float64 },
                ),
            },
        },
        SqlValue::SingleQuotedString(s) => Ok(Data::String(s.clone())),
        SqlValue::DoubleQuotedString(s) => Ok(Data::String(s.clone())),
        SqlValue::DollarQuotedString(s) => Ok(Data::String(s.clone())),
        SqlValue::NationalStringLiteral(s) => Ok(Data::String(s.clone())),
        SqlValue::HexStringLiteral(s) => Ok(Data::String(s.clone())),
        SqlValue::EscapedStringLiteral(s) => Ok(Data::String(s.clone())),
        SqlValue::Placeholder(s) => Ok(Data::String(s.clone())),
        SqlValue::Boolean(b) => Ok(Data::Bool(*b)),
        SqlValue::Null => Err(PlanError::Unimplemented(UnimplementedFeature::Null)),
        SqlValue::Other(s) => Err(
            PlanError::Unimplemented(UnimplementedFeature::Expr { expr: s.clone() }),
        ),
    }
}

} // verus!
