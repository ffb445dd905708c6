//! Translating SQL binary operators into core operators.

use crate::ast::SqlBinaryOperator;
use crate::error::res_view;
use crate::expr::Operator;
use crate::plan::error::{PlanError, PlanErrorV, UnimplementedFeature, UnimplementedFeatureV};
use vstd::prelude::*;

verus! {

/// The core operator a SQL binary operator denotes; anything else is
/// *unimplemented*.
pub open spec fn spec_convert_op(op: SqlBinaryOperator) -> Result<Operator, PlanErrorV> {
    match op {
        SqlBinaryOperator::Gt => Ok(Operator::Gt),
        SqlBinaryOperator::GtEq => Ok(Operator::GtEq),
        SqlBinaryOperator::Lt => Ok(Operator::Lt),
        SqlBinaryOperator::LtEq => Ok(Operator::LtEq),
        SqlBinaryOperator::Eq => Ok(Operator::Eq),
        SqlBinaryOperator::NotEq => Ok(Operator::NotEq),
        SqlBinaryOperator::Plus => Ok(Operator::Plus),
        SqlBinaryOperator::Minus => Ok(Operator::Minus),
        SqlBinaryOperator::And => Ok(Operator::And),
        SqlBinaryOperator::Or => Ok(Operator::Or),
        SqlBinaryOperator::Other(name) => Err(
            PlanErrorV::Unimplemented(UnimplementedFeatureV::Operator { op: name@ }),
        ),
    }
}

/// Translate a SQL binary operator into a core operator.
pub fn convert_op(op: &SqlBinaryOperator) -> (r: Result<Operator, PlanError>)
    ensures
        res_view(r) == spec_convert_op(*op),
{
    match op {
        SqlBinaryOperator::Gt => Ok(Operator::Gt),
        SqlBinaryOperator::GtEq => Ok(Operator::GtEq),
        SqlBinaryOperator::Lt => Ok(Operator::Lt),
        SqlBinaryOperator::LtEq => Ok(Operator::LtEq),
        SqlBinaryOperator::Eq => Ok(Operator::Eq),
        SqlBinaryOperator::NotEq => Ok(Operator::NotEq),
        SqlBinaryOperator::Plus => Ok(Operator::Plus),
        SqlBinaryOperator::Minus => Ok(Operator::Minus),
        SqlBinaryOperator::And => Ok(Operator::And),
        SqlBinaryOperator::Or => Ok(Operator::Or),
        SqlBinaryOperator::Other(name) => Err(
            PlanError::Unimplemented(UnimplementedFeature::Operator { op: name.clone() }),
        ),
    }
}

} // verus!
