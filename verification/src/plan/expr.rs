//! Translating SQL expressions into core expressions, and naming them.

use crate::ast::{SqlBinaryOperator, SqlExpr, SqlValue};
use crate::error::res_view;
use crate::expr::{Expr, ExprV};
use crate::plan::error::{PlanError, PlanErrorV, UnimplementedFeature, UnimplementedFeatureV};
use crate::plan::op::{convert_op, spec_convert_op};
use crate::plan::value2data::{spec_value_to_data, value_to_data};
use vstd::prelude::*;
use vstd::string::*;

verus! {

/// The core expression a SQL expression denotes: identifiers become column
/// references, literals become scalars, binary operations recurse; anything
/// else is *unimplemented*.
pub open spec fn spec_convert_expr(e: SqlExpr) -> Result<ExprV, PlanErrorV>
    decreases e,
{
    match e {
        SqlExpr::Identifier(name) => Ok(ExprV::Column(name@)),
        SqlExpr::Value(v) => match spec_value_to_data(v) {
            Err(pe) => Err(pe),
            Ok(d) => Ok(ExprV::Literal(d)),
        },
        SqlExpr::BinaryOp { left, op, right } => match spec_convert_expr(*left) {
            Err(pe) => Err(pe),
            Ok(l) => match spec_convert_expr(*right) {
                Err(pe) => Err(pe),
                Ok(r) => match spec_convert_op(op) {
                    Err(pe) => Err(pe),
                    Ok(o) => Ok(
                        ExprV::BinaryExpr { left: Box::new(l), op: o, right: Box::new(r) },
                    ),
                },
            },
        },
        SqlExpr::Other(text) => Err(
            PlanErrorV::Unimplemented(UnimplementedFeatureV::Expr { expr: text@ }),
        ),
    }
}

/// Translate a SQL expression into a core expression.
pub fn convert_expr(e: &SqlExpr) -> (r: Result<Expr, PlanError>)
    ensures
        res_view(r) == spec_convert_expr(*e),
    decreases e,
{
    match e {
        SqlExpr::Identifier(name) => Ok(Expr::Column(name.clone())),
        SqlExpr::Value(v) => match value_to_data(v) {
            Err(pe) => Err(pe),
            Ok(d) => Ok(Expr::Literal(d)),
        },
        SqlExpr::BinaryOp { left, op, right } => match convert_expr(left) {
            Err(pe) => Err(pe),
            Ok(l) => match convert_expr(right) {
                Err(pe) => Err(pe),
                Ok(r) => match convert_op(op) {
                    Err(pe) => Err(pe),
                    Ok(o) => Ok(
                        Expr::BinaryExpr { left: Box::new(l), op: o, right: Box::new(r) },
                    ),
                },
            },
        },
        SqlExpr::Other(text) => Err(
            PlanError::Unimplemented(UnimplementedFeature::Expr { expr: text.clone() }),
        ),
    }
}

/// The display text of a SQL binary operator.
pub open spec fn spec_sql_op_display(op: SqlBinaryOperator) -> Seq<char> {
    match op {
        SqlBinaryOperator::Gt => ">"@,
        SqlBinaryOperator::GtEq => ">="@,
        SqlBinaryOperator::Lt => "<"@,
        SqlBinaryOperator::LtEq => "<="@,
        SqlBinaryOperator::Eq => "="@,
        SqlBinaryOperator::NotEq => "!="@,
        SqlBinaryOperator::Plus => "+"@,
        SqlBinaryOperator::Minus => "-"@,
        SqlBinaryOperator::And => "AND"@,
        SqlBinaryOperator::Or => "OR"@,
        SqlBinaryOperator::Other(name) => name@,
    }
}

/// The display text of a SQL literal: a number or string shows its content,
/// a boolean `true` or `false`, `NULL` itself.
pub open spec fn spec_sql_value_display(v: SqlValue) -> Seq<char> {
    match v {
        SqlValue::Number { text, float_bits } => text@,
        SqlValue::SingleQuotedString(s) => s@,
        SqlValue::DoubleQuotedString(s) => s@,
        SqlValue::DollarQuotedString(s) => s@,
        SqlValue::NationalStringLiteral(s) => s@,
        SqlValue::HexStringLiteral(s) => s@,
        SqlValue::EscapedStringLiteral(s) => s@,
        SqlValue::Placeholder(s) => s@,
        SqlValue::Boolean(b) => if b {
            "true"@
        } else {
            "false"@
        },
        SqlValue::Null => "NULL"@,
        SqlValue::Other(s) => s@,
    }
}

/// The display text of a SQL expression, used to name unaliased projection
/// columns: the column name, the literal's content, or
/// `<left> <op> <right>`.
pub open spec fn spec_sql_expr_display(e: SqlExpr) -> Seq<char>
    decreases e,
{
    match e {
        SqlExpr::Identifier(name) => name@,
        SqlExpr::Value(v) => spec_sql_value_display(v),
        SqlExpr::BinaryOp { left, op, right } => spec_sql_expr_display(*left) + " "@
            + spec_sql_op_display(op) + " "@ + spec_sql_expr_display(*right),
        SqlExpr::Other(text) => text@,
    }
}

/// Render the display text of a SQL binary operator.
fn sql_op_display(op: &SqlBinaryOperator) -> (r: String)
    ensures
        r@ == spec_sql_op_display(*op),
{
    match op {
        SqlBinaryOperator::Gt => String::from_str(">"),
        SqlBinaryOperator::GtEq => String::from_str(">="),
        SqlBinaryOperator::Lt => String::from_str("<"),
        SqlBinaryOperator::LtEq => String::from_str("<="),
        SqlBinaryOperator::Eq => String::from_str("="),
        SqlBinaryOperator::NotEq => String::from_str("!="),
        SqlBinaryOperator::Plus => String::from_str("+"),
        SqlBinaryOperator::Minus => String::from_str("-"),
        SqlBinaryOperator::And => String::from_str("AND"),
        SqlBinaryOperator::Or => String::from_str("OR"),
        SqlBinaryOperator::Other(name) => name.clone(),
    }
}

/// Render the display text of a SQL literal.
fn sql_value_display(v: &SqlValue) -> (r: String)
    ensures
        r@ == spec_sql_value_display(*v),
{
    match v {
        SqlValue::Number { text, float_bits } => text.clone(),
        SqlValue::SingleQuotedString(s) => s.clone(),
        SqlValue::DoubleQuotedString(s) => s.clone(),
        SqlValue::DollarQuotedString(s) => s.clone(),
        SqlValue::NationalStringLiteral(s) => s.clone(),
        SqlValue::HexStringLiteral(s) => s.clone(),
        SqlValue::EscapedStringLiteral(s) => s.clone(),
        SqlValue::Placeholder(s) => s.clone(),
        SqlValue::Boolean(b) => if *b {
            String::from_str("true")
        } else {
            String::from_str("false")
        },
        SqlValue::Null => String::from_str("NULL"),
        SqlValue::Other(s) => s.clone(),
    }
}

/// Render the display text of a SQL expression.
pub fn sql_expr_display(e: &SqlExpr) -> (r: String)
    ensures
        r@ == spec_sql_expr_display(*e),
    decreases e,
{
    match e {
        SqlExpr::Identifier(name) => name.clone(),
        SqlExpr::Value(v) => sql_value_display(v),
        SqlExpr::BinaryOp { left, op, right } => {
            let mut out = sql_expr_display(left);
            out.append(" ");
            let ops = sql_op_display(op);
            out.append(ops.as_str());
            out.append(" ");
            let rs = sql_expr_display(right);
            out.append(rs.as_str());
            out
        },
        SqlExpr::Other(text) => text.clone(),
    }
}

} // verus!
