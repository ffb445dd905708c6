//! The filter operator: keep the rows whose predicate is true.

use crate::catalog::schema::{ColumnV, Schema};
use crate::data::tuple::Tuple;
use crate::data::types::DataVal;
use crate::error::{Error, ErrorV};
use crate::expr::{spec_eval, wrap_eval_err, Expr, ExprV};
use crate::physical_plan::PhysicalPlan;
use crate::plan::error::{ExprEvaluationError, ExprEvaluationErrorV, PlanError};
use vstd::prelude::*;

verus! {

/// Streams tuples from its input, keeping those for which the predicate
/// evaluates to `true`.
#[derive(Debug)]
pub struct FilterExec {
    pub predicate: Expr,
    pub input: Box<PhysicalPlan>,
}

impl FilterExec {
    /// Create a filter over `input`.
    pub fn new(predicate: Expr, input: Box<PhysicalPlan>) -> (r: FilterExec)
        ensures
            r.predicate@ == predicate@,
            r.input == input,
    {
        FilterExec { predicate, input }
    }
}

/// The rows of `rows` from position `i` on whose predicate evaluates to
/// `true` under `schema`.  A row of the wrong arity is a storage fault; a
/// non-boolean predicate value is a typing error.
pub open spec fn spec_filter_rows(
    pred: ExprV,
    schema: Seq<ColumnV>,
    rows: Seq<Seq<DataVal>>,
    i: int,
) -> Result<Seq<Seq<DataVal>>, ErrorV>
    decreases rows.len() - i,
{
    if i < 0 || i >= rows.len() {
        Ok(Seq::empty())
    } else if rows[i].len() != schema.len() {
        Err(ErrorV::StorageError { message: "row does not match the operator schema"@ })
    } else {
        match spec_eval(pred, schema, rows[i]) {
            Err(e) => Err(e),
            Ok(DataVal::Bool(b)) => match spec_filter_rows(pred, schema, rows, i + 1) {
                Err(e) => Err(e),
                Ok(rest) => Ok(
                    if b {
                        seq![rows[i]] + rest
                    } else {
                        rest
                    },
                ),
            },
            Ok(d) => Err(
                wrap_eval_err(
                    ExprEvaluationErrorV::PredicateNotBoolean {
                        datatype: crate::data::types::spec_datatype(d),
                    },
                ),
            ),
        }
    }
}

/// Keep the rows whose predicate evaluates to `true`.
pub fn apply_filter(pred: &Expr, schema: &Schema, rows: Vec<Tuple>) -> (r: Result<
    Vec<Tuple>,
    Error,
>)
    ensures
        match r {
            Ok(kept) => spec_filter_rows(pred@, schema@, rows.deep_view(), 0) == Ok::<
                Seq<Seq<DataVal>>,
                ErrorV,
            >(kept.deep_view()),
            Err(e) => spec_filter_rows(pred@, schema@, rows.deep_view(), 0) == Err::<
                Seq<Seq<DataVal>>,
                ErrorV,
            >(e@),
        },
{
    let ghost rv = rows.deep_view();
    let n = rows.len();
    let mut kept: Vec<Tuple> = Vec::new();
    proof {
        assert(rows.deep_view().len() == rows@.len());
        assert(kept.deep_view() =~= Seq::<Seq<DataVal>>::empty());
        match spec_filter_rows(pred@, schema@, rv, 0) {
            Err(_) => {},
            Ok(rest) => {
                assert(kept.deep_view() + rest =~= rest);
            },
        }
    }
    for i in 0..n
        invariant
            rv == rows.deep_view(),
            n == rows.len(),
            n == rv.len(),
            spec_filter_rows(pred@, schema@, rv, 0) == match spec_filter_rows(
                pred@,
                schema@,
                rv,
                i as int,
            ) {
                Err(e) => Err::<Seq<Seq<DataVal>>, ErrorV>(e),
                Ok(rest) => Ok(kept.deep_view() + rest),
            },
    {
        let row = &rows[i];
        proof {
            assert(rv[i as int] == rows@[i as int].deep_view());
        }
        if row.len() != schema.n_columns() {
            return Err(
                Error::StorageError {
                    message: String::from_str("row does not match the operator schema"),
                },
            );
        }
        match pred.evaluate(schema, row) {
            Err(e) => {
                return Err(e);
            },
            Ok(d) => match d {
                crate::data::types::Data::Bool(b) => {
                    if b {
                        proof {
                            assert(kept.deep_view().len() == kept@.len());
                        }
                        let t = row.clone();
                        let ghost tv = t@;
                        let ghost prev = kept@;
                        kept.push(t);
                        proof {
                            assert(kept@.len() == prev.len() + 1);
                            assert(forall|j: int| 0 <= j < prev.len() ==> kept@[j] == prev[j]);
                            let kd = kept.deep_view();
                            assert(kd[prev.len() as int] == tv);
                            match spec_filter_rows(pred@, schema@, rv, i + 1) {
                                Err(_) => {},
                                Ok(rest2) => {
                                    assert((Seq::new(
                                        prev.len() as nat,
                                        |j: int| prev[j].deep_view(),
                                    ) + (seq![rv[i as int]] + rest2)) =~= (kd + rest2));
                                },
                            }
                        }
                    }
                },
                other => {
                    let dt = other.datatype();
                    return Err(
                        Error::PlanError(
                            PlanError::ExprEvaluationError(
                                ExprEvaluationError::PredicateNotBoolean { datatype: dt },
                            ),
                        ),
                    );
                },
            },
        }
    }
    proof {
        match spec_filter_rows(pred@, schema@, rv, n as int) {
            Err(_) => {
                assert(false);
            },
            Ok(rest) => {
                assert(kept.deep_view() + rest =~= kept.deep_view());
            },
        }
    }
    Ok(kept)
}

} // verus!
