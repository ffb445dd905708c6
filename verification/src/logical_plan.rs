//! The logical plan: the relational operator tree the planner produces.

use crate::catalog::schema::{ColumnV, Schema};
use crate::data::tuple::Tuple;
use crate::data::types::DataVal;
use crate::expr::{Expr, ExprV};
use vstd::prelude::*;

verus! {

/// A relational operation; `Box` children form the tree.
#[derive(Debug)]
pub enum LogicalPlan {
    Explain { plan: Box<LogicalPlan> },
    /// `sql` is the statement's SQL text, persisted so the catalog can be
    /// rebuilt at startup.
    CreateTable { name: String, schema: Schema, pk: usize, sql: String },
    Filter { predicate: Expr, input: Box<LogicalPlan> },
    TableScan { name: String },
    ShowTables,
    DescribeTable { name: String },
    Insert { table: String, rows: Vec<Tuple> },
    /// An absent bound means no offset, respectively no limit; a present
    /// offset is never zero.
    Limit { offset: Option<usize>, limit: Option<usize>, input: Box<LogicalPlan> },
    Projection { expr: Vec<Expr>, schema: Schema, input: Box<LogicalPlan> },
    /// A single empty row: the source of a `SELECT` without `FROM`.
    OneRowPlaceholder,
}

/// The mathematical value of a [`LogicalPlan`].
pub enum LogicalPlanV {
    Explain { plan: Box<LogicalPlanV> },
    CreateTable { name: Seq<char>, schema: Seq<ColumnV>, pk: int, sql: Seq<char> },
    Filter { predicate: ExprV, input: Box<LogicalPlanV> },
    TableScan { name: Seq<char> },
    ShowTables,
    DescribeTable { name: Seq<char> },
    Insert { table: Seq<char>, rows: Seq<Seq<DataVal>> },
    Limit { offset: Option<int>, limit: Option<int>, input: Box<LogicalPlanV> },
    Projection { expr: Seq<ExprV>, schema: Seq<ColumnV>, input: Box<LogicalPlanV> },
    OneRowPlaceholder,
}

/// The mathematical value of a logical plan tree.
pub open spec fn spec_plan_view(p: LogicalPlan) -> LogicalPlanV
    decreases p,
{
    match p {
        LogicalPlan::Explain { plan } => LogicalPlanV::Explain {
            plan: Box::new(spec_plan_view(*plan)),
        },
        LogicalPlan::CreateTable { name, schema, pk, sql } => LogicalPlanV::CreateTable {
            name: name@,
            schema: schema@,
            pk: pk as int,
            sql: sql@,
        },
        LogicalPlan::Filter { predicate, input } => LogicalPlanV::Filter {
            predicate: predicate@,
            input: Box::new(spec_plan_view(*input)),
        },
        LogicalPlan::TableScan { name } => LogicalPlanV::TableScan { name: name@ },
        LogicalPlan::ShowTables => LogicalPlanV::ShowTables,
        LogicalPlan::DescribeTable { name } => LogicalPlanV::DescribeTable { name: name@ },
        LogicalPlan::Insert { table, rows } => LogicalPlanV::Insert {
            table: table@,
            rows: rows.deep_view(),
        },
        LogicalPlan::Limit { offset, limit, input } => LogicalPlanV::Limit {
            offset: match offset {
                Some(o) => Some(o as int),
                None => None,
            },
            limit: match limit {
                Some(l) => Some(l as int),
                None => None,
            },
            input: Box::new(spec_plan_view(*input)),
        },
        LogicalPlan::Projection { expr, schema, input } => LogicalPlanV::Projection {
            expr: expr.deep_view(),
            schema: schema@,
            input: Box::new(spec_plan_view(*input)),
        },
        LogicalPlan::OneRowPlaceholder => LogicalPlanV::OneRowPlaceholder,
    }
}

impl View for LogicalPlan {
    type V = LogicalPlanV;

    open spec fn view(&self) -> LogicalPlanV {
        spec_plan_view(*self)
    }
}

impl DeepView for LogicalPlan {
    type V = LogicalPlanV;

    open spec fn deep_view(&self) -> LogicalPlanV {
        self.view()
    }
}

} // verus!
