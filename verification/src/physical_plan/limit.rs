//! The limit operator: skip an offset, then take at most a limit.

use crate::data::tuple::Tuple;
use crate::data::types::DataVal;
use crate::physical_plan::PhysicalPlan;
use vstd::prelude::*;

verus! {

/// Skips `offset` tuples (when present) and then passes through at most
/// `limit` tuples (when present) from its input.
#[derive(Debug)]
pub struct LimitExec {
    pub offset: Option<usize>,
    pub limit: Option<usize>,
    pub input: Box<PhysicalPlan>,
}

impl LimitExec {
    /// Create a limit over `input`.
    pub fn new(offset: Option<usize>, limit: Option<usize>, input: Box<PhysicalPlan>) -> (r:
        LimitExec)
        ensures
            r.offset == offset,
            r.limit == limit,
            r.input == input,
    {
        LimitExec { offset, limit, input }
    }
}

/// The rows that survive the bounds: an absent offset skips nothing, an
/// absent limit takes everything.
pub open spec fn spec_limit_rows(
    offset: Option<int>,
    limit: Option<int>,
    rows: Seq<Seq<DataVal>>,
) -> Seq<Seq<DataVal>> {
    let after = match offset {
        Some(o) => if 0 <= o <= rows.len() {
            rows.skip(o)
        } else {
            Seq::empty()
        },
        None => rows,
    };
    match limit {
        Some(l) => if 0 <= l <= after.len() {
            after.take(l)
        } else {
            after
        },
        None => after,
    }
}

/// A limit over `n` input rows yields `min(limit, max(0, n - offset))`
/// rows, an absent limit standing for infinity and an absent offset for
/// zero.
pub proof fn lemma_limit_count(offset: Option<int>, limit: Option<int>, rows: Seq<Seq<DataVal>>)
    requires
        offset matches Some(o) ==> o >= 0,
        limit matches Some(l) ==> l >= 0,
    ensures
        ({
            let n = rows.len() as int;
            let off = match offset {
                Some(o) => o,
                None => 0,
            };
            let kept = if n - off >= 0 {
                n - off
            } else {
                0
            };
            let capped = match limit {
                Some(l) => if l <= kept {
                    l
                } else {
                    kept
                },
                None => kept,
            };
            spec_limit_rows(offset, limit, rows).len() == capped
        }),
{
}

/// Apply the bounds to materialised rows.
pub fn apply_limit(offset: &Option<usize>, limit: &Option<usize>, rows: Vec<Tuple>) -> (r: Vec<
    Tuple,
>)
    ensures
        r.deep_view() == spec_limit_rows(
            match *offset {
                Some(o) => Some(o as int),
                None => None,
            },
            match *limit {
                Some(l) => Some(l as int),
                None => None,
            },
            rows.deep_view(),
        ),
{
    let ghost rv = rows.deep_view();
    let n = rows.len();
    proof {
        assert(rv.len() == rows@.len());
    }
    let start: usize = match offset {
        Some(o) => if *o <= n {
            *o
        } else {
            n
        },
        None => 0,
    };
    let end: usize = match limit {
        Some(l) => if *l <= n - start {
            start + *l
        } else {
            n
        },
        None => n,
    };
    let mut out: Vec<Tuple> = Vec::new();
    let mut i: usize = start;
    proof {
        assert(out.deep_view() =~= rv.subrange(start as int, start as int));
    }
    while i < end
        invariant
            rv == rows.deep_view(),
            n == rows.len(),
            n == rv.len(),
            start <= i <= end <= n,
            out.deep_view() == rv.subrange(start as int, i as int),
        decreases end - i,
    {
        proof {
            assert(out.deep_view().len() == out@.len());
            assert(rv[i as int] == rows@[i as int].deep_view());
        }
        let t = rows[i].clone();
        let ghost prev = out@;
        out.push(t);
        proof {
            assert(out@.len() == prev.len() + 1);
            assert(forall|j: int| 0 <= j < prev.len() ==> out@[j] == prev[j]);
        }
        i = i + 1;
        assert(out.deep_view() =~= rv.subrange(start as int, i as int));
    }
    proof {
        let offv = match *offset {
            Some(o) => Some(o as int),
            None => None::<int>,
        };
        let limv = match *limit {
            Some(l) => Some(l as int),
            None => None::<int>,
        };
        let after = match offv {
            Some(o) => if 0 <= o <= rv.len() {
                rv.skip(o)
            } else {
                Seq::<Seq<DataVal>>::empty()
            },
            None => rv,
        };
        assert(after =~= rv.subrange(start as int, n as int));
        assert(spec_limit_rows(offv, limv, rv) =~= rv.subrange(start as int, end as int));
        assert(out.deep_view() =~= spec_limit_rows(offv, limv, rv));
    }
    out
}

} // verus!
