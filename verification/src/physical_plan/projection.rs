//! The projection operator: evaluate output expressions per row.

use crate::catalog::schema::{ColumnV, Schema};
use crate::data::tuple::Tuple;
use crate::data::types::DataVal;
use crate::error::{Error, ErrorV};
use crate::expr::{spec_eval_batch, Expr, ExprV};
use crate::physical_plan::PhysicalPlan;
use vstd::prelude::*;

verus! {

/// Streams tuples from its input, replacing each with the values of the
/// projection expressions; the output schema was built by the planner.
#[derive(Debug)]
pub struct ProjectionExec {
    pub expr: Vec<Expr>,
    pub schema: Schema,
    pub input: Box<PhysicalPlan>,
}

impl ProjectionExec {
    /// Create a projection over `input`.
    pub fn new(expr: Vec<Expr>, schema: Schema, input: Box<PhysicalPlan>) -> (r: ProjectionExec)
        ensures
            r.expr.deep_view() == expr.deep_view(),
            r.schema@ == schema@,
            r.input == input,
    {
        ProjectionExec { expr, schema, input }
    }
}

/// The rows from position `i` on, each replaced by the values of the
/// projection expressions under the input schema.  A row of the wrong
/// arity is a storage fault.
pub open spec fn spec_project_rows(
    exprs: Seq<ExprV>,
    in_schema: Seq<ColumnV>,
    rows: Seq<Seq<DataVal>>,
    i: int,
) -> Result<Seq<Seq<DataVal>>, ErrorV>
    decreases rows.len() - i,
{
    if i < 0 || i >= rows.len() {
        Ok(Seq::empty())
    } else if rows[i].len() != in_schema.len() {
        Err(ErrorV::StorageError { message: "row does not match the operator schema"@ })
    } else {
        match spec_eval_batch(exprs, in_schema, rows[i]) {
            Err(e) => Err(e),
            Ok(vals) => match spec_project_rows(exprs, in_schema, rows, i + 1) {
                Err(e) => Err(e),
                Ok(rest) => Ok(seq![vals] + rest),
            },
        }
    }
}

/// Evaluate the projection expressions against every row.
pub fn apply_projection(exprs: &Vec<Expr>, in_schema: &Schema, rows: Vec<Tuple>) -> (r: Result<
    Vec<Tuple>,
    Error,
>)
    ensures
        match r {
            Ok(out) => spec_project_rows(exprs.deep_view(), in_schema@, rows.deep_view(), 0)
                == Ok::<Seq<Seq<DataVal>>, ErrorV>(out.deep_view()),
            Err(e) => spec_project_rows(exprs.deep_view(), in_schema@, rows.deep_view(), 0)
                == Err::<Seq<Seq<DataVal>>, ErrorV>(e@),
        },
{
    let ghost rv = rows.deep_view();
    let n = rows.len();
    let mut out: Vec<Tuple> = Vec::new();
    proof {
        assert(rv.len() == rows@.len());
        assert(out.deep_view() =~= Seq::<Seq<DataVal>>::empty());
        match spec_project_rows(exprs.deep_view(), in_schema@, rv, 0) {
            Err(_) => {},
            Ok(rest) => {
                assert(out.deep_view() + rest =~= rest);
            },
        }
    }
    for i in 0..n
        invariant
            rv == rows.deep_view(),
            n == rows.len(),
            n == rv.len(),
            spec_project_rows(exprs.deep_view(), in_schema@, rv, 0) == match spec_project_rows(
                exprs.deep_view(),
                in_schema@,
                rv,
                i as int,
            ) {
                Err(e) => Err::<Seq<Seq<DataVal>>, ErrorV>(e),
                Ok(rest) => Ok(out.deep_view() + rest),
            },
    {
        let row = &rows[i];
        proof {
            assert(rv[i as int] == rows@[i as int].deep_view());
        }
        if row.len() != in_schema.n_columns() {
            return Err(
                Error::StorageError {
                    message: String::from_str("row does not match the operator schema"),
                },
            );
        }
        let exprs_slice = exprs.as_slice();
        proof {
            assert(exprs_slice.deep_view() =~= exprs.deep_view());
        }
        match Expr::evaluate_batch(exprs_slice, in_schema, row) {
            Err(e) => {
                return Err(e);
            },
            Ok(vals) => {
                proof {
                    assert(out.deep_view().len() == out@.len());
                }
                let t = Tuple::new(vals);
                let ghost tv = t@;
                let ghost prev = out@;
                out.push(t);
                proof {
                    assert(out@.len() == prev.len() + 1);
                    assert(forall|j: int| 0 <= j < prev.len() ==> out@[j] == prev[j]);
                    let od = out.deep_view();
                    assert(od[prev.len() as int] == tv);
                    match spec_project_rows(exprs.deep_view(), in_schema@, rv, i + 1) {
                        Err(_) => {},
                        Ok(rest2) => {
                            assert((Seq::new(prev.len() as nat, |j: int| prev[j].deep_view()) + (
                            seq![tv] + rest2)) =~= (od + rest2));
                        },
                    }
                }
            },
        }
    }
    proof {
        match spec_project_rows(exprs.deep_view(), in_schema@, rv, n as int) {
            Err(_) => {
                assert(false);
            },
            Ok(rest) => {
                assert(out.deep_view() + rest =~= out.deep_view());
            },
        }
    }
    Ok(out)
}

} // verus!
