//! Errors raised while lowering a statement or evaluating an expression.

use crate::data::types::{Data, DataType, DataVal};
use crate::expr::{Expr, ExprV, Operator};
use vstd::prelude::*;

verus! {

/// A SQL construct the planner does not support, named by its display text.
#[derive(Debug)]
pub enum UnimplementedFeature {
    /// Only for statements not covered by the more detailed variants below.
    Statement { statement: String },
    DataType { ty: String },
    Operator { op: String },
    Expr { expr: String },
    MultiLevelTable { object_name: String },
    /// `SELECT t.*`, which the planner rejects.
    ProjectionQualifiedWildcard,
    Null,
}

/// The mathematical value of an [`UnimplementedFeature`].
pub enum UnimplementedFeatureV {
    Statement { statement: Seq<char> },
    DataType { ty: Seq<char> },
    Operator { op: Seq<char> },
    Expr { expr: Seq<char> },
    MultiLevelTable { object_name: Seq<char> },
    ProjectionQualifiedWildcard,
    Null,
}

impl View for UnimplementedFeature {
    type V = UnimplementedFeatureV;

    open spec fn view(&self) -> UnimplementedFeatureV {
        match self {
            UnimplementedFeature::Statement { statement } => UnimplementedFeatureV::Statement {
                statement: statement@,
            },
            UnimplementedFeature::DataType { ty } => UnimplementedFeatureV::DataType { ty: ty@ },
            UnimplementedFeature::Operator { op } => UnimplementedFeatureV::Operator { op: op@ },
            UnimplementedFeature::Expr { expr } => UnimplementedFeatureV::Expr { expr: expr@ },
            UnimplementedFeature::MultiLevelTable { object_name } => {
                UnimplementedFeatureV::MultiLevelTable { object_name: object_name@ }
            },
            UnimplementedFeature::ProjectionQualifiedWildcard => {
                UnimplementedFeatureV::ProjectionQualifiedWildcard
            },
            UnimplementedFeature::Null => UnimplementedFeatureV::Null,
        }
    }
}

impl DeepView for UnimplementedFeature {
    type V = UnimplementedFeatureV;

    open spec fn deep_view(&self) -> UnimplementedFeatureV {
        self.view()
    }
}

/// An expression could not be evaluated.
#[derive(Debug)]
pub enum ExprEvaluationError {
    /// The two operand datatypes differ.
    DoOpOnDiffTypes { lhs: DataType, op: Operator, rhs: DataType },
    /// The operator is not defined on the operand datatype.
    UnsupportedTypeForOp { datatype: DataType, op: Operator },
    /// The expression had to be constant but references a column.
    ExprIsNotConstant { expr: Expr },
    /// A filter predicate evaluated to a non-boolean value.
    PredicateNotBoolean { datatype: DataType },
}

/// The mathematical value of an [`ExprEvaluationError`].
pub enum ExprEvaluationErrorV {
    DoOpOnDiffTypes { lhs: DataType, op: Operator, rhs: DataType },
    UnsupportedTypeForOp { datatype: DataType, op: Operator },
    ExprIsNotConstant { expr: ExprV },
    PredicateNotBoolean { datatype: DataType },
}

impl View for ExprEvaluationError {
    type V = ExprEvaluationErrorV;

    open spec fn view(&self) -> ExprEvaluationErrorV {
        match self {
            ExprEvaluationError::DoOpOnDiffTypes { lhs, op, rhs } => {
                ExprEvaluationErrorV::DoOpOnDiffTypes { lhs: *lhs, op: *op, rhs: *rhs }
            },
            ExprEvaluationError::UnsupportedTypeForOp { datatype, op } => {
                ExprEvaluationErrorV::UnsupportedTypeForOp { datatype: *datatype, op: *op }
            },
            ExprEvaluationError::ExprIsNotConstant { expr } => {
                ExprEvaluationErrorV::ExprIsNotConstant { expr: expr@ }
            },
            ExprEvaluationError::PredicateNotBoolean { datatype } => {
                ExprEvaluationErrorV::PredicateNotBoolean { datatype: *datatype }
            },
        }
    }
}

impl DeepView for ExprEvaluationError {
    type V = ExprEvaluationErrorV;

    open spec fn deep_view(&self) -> ExprEvaluationErrorV {
        self.view()
    }
}

/// Lowering a statement failed.
#[derive(Debug)]
pub enum PlanError {
    /// A `VALUES` row does not have one cell per table column.
    MismatchedNumberColumns { table: String, expected: usize, found: usize },
    /// A `VALUES` cell does not have the column's datatype.
    MismatchedType { table: String, column_idx: usize, expected: DataType, found: DataType },
    /// A literal could not be converted to a scalar of the target type.
    ConversionError { val: String, to: DataType },
    ExprEvaluationError(ExprEvaluationError),
    /// `LIMIT`/`OFFSET` did not evaluate to a non-negative integer.
    NonUintLimitOffset { expr: Data },
    Unimplemented(UnimplementedFeature),
    /// `*` in a `SELECT` without `FROM`.
    WildcardWithoutFrom,
    /// A non-constant expression in a `SELECT` without `FROM`.
    NonConstantExprWithoutFrom { expr: Expr },
}

/// The mathematical value of a [`PlanError`].
pub enum PlanErrorV {
    MismatchedNumberColumns { table: Seq<char>, expected: int, found: int },
    MismatchedType { table: Seq<char>, column_idx: int, expected: DataType, found: DataType },
    ConversionError { val: Seq<char>, to: DataType },
    ExprEvaluationError(ExprEvaluationErrorV),
    NonUintLimitOffset { expr: DataVal },
    Unimplemented(UnimplementedFeatureV),
    WildcardWithoutFrom,
    NonConstantExprWithoutFrom { expr: ExprV },
}

impl View for PlanError {
    type V = PlanErrorV;

    open spec fn view(&self) -> PlanErrorV {
        match self {
            PlanError::MismatchedNumberColumns { table, expected, found } => {
                PlanErrorV::MismatchedNumberColumns {
                    table: table@,
                    expected: *expected as int,
                    found: *found as int,
                }
            },
            PlanError::MismatchedType { table, column_idx, expected, found } => {
                PlanErrorV::MismatchedType {
                    table: table@,
                    column_idx: *column_idx as int,
                    expected: *expected,
                    found: *found,
                }
            },
            PlanError::ConversionError { val, to } => PlanErrorV::ConversionError {
                val: val@,
                to: *to,
            },
            PlanError::ExprEvaluationError(e) => PlanErrorV::ExprEvaluationError(e@),
            PlanError::NonUintLimitOffset { expr } => PlanErrorV::NonUintLimitOffset {
                expr: expr@,
            },
            PlanError::Unimplemented(u) => PlanErrorV::Unimplemented(u@),
            PlanError::WildcardWithoutFrom => PlanErrorV::WildcardWithoutFrom,
            PlanError::NonConstantExprWithoutFrom { expr } => {
                PlanErrorV::NonConstantExprWithoutFrom { expr: expr@ }
            },
        }
    }
}

impl DeepView for PlanError {
    type V = PlanErrorV;

    open spec fn deep_view(&self) -> PlanErrorV {
        self.view()
    }
}

} // verus!
