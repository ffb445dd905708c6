//! Resolving object names to table names.

use crate::ast::ObjectName;
use crate::error::res_view;
use crate::plan::error::{PlanError, PlanErrorV, UnimplementedFeature, UnimplementedFeatureV};
use vstd::prelude::*;
use vstd::string::*;

verus! {

/// Name parts joined with dots.
pub open spec fn spec_join_dot(parts: Seq<Seq<char>>) -> Seq<char>
    decreases parts.len(),
{
    if parts.len() == 0 {
        Seq::empty()
    } else if parts.len() == 1 {
        parts[0]
    } else {
        spec_join_dot(parts.drop_last()) + "."@ + parts.last()
    }
}

/// Join name parts with dots.
pub fn join_dot(parts: &Vec<String>) -> (r: String)
    ensures
        r@ == spec_join_dot(parts.deep_view()),
{
    let ghost pv = parts.deep_view();
    let n = parts.len();
    let mut acc = String::new();
    proof {
        assert(pv.take(0) =~= Seq::<Seq<char>>::empty());
        assert(acc@ =~= spec_join_dot(pv.take(0)));
    }
    for i in 0..n
        invariant
            pv == parts.deep_view(),
            n == parts.len(),
            n == pv.len(),
            acc@ == spec_join_dot(pv.take(i as int)),
    {
        proof {
            assert(pv[i as int] == parts@[i as int]@);
            assert(pv.take(i + 1).drop_last() =~= pv.take(i as int));
            assert(pv.take(i + 1).last() == pv[i as int]);
        }
        if i > 0 {
            acc.append(".");
        }
        acc.append(parts[i].as_str());
        proof {
            if i == 0 {
                assert(acc@ =~= spec_join_dot(pv.take(1)));
            } else {
                assert(acc@ =~= spec_join_dot(pv.take(i + 1)));
            }
        }
    }
    proof {
        assert(pv.take(n as int) =~= pv);
    }
    acc
}

/// The table name an object name denotes: its single part; a dotted name is
/// *unimplemented*.
pub open spec fn spec_object_name_to_table_name(name: ObjectName) -> Result<Seq<char>, PlanErrorV> {
    if name.0@.len() != 1 {
        Err(
            PlanErrorV::Unimplemented(
                UnimplementedFeatureV::MultiLevelTable {
                    object_name: spec_join_dot(name.0.deep_view()),
                },
            ),
        )
    } else {
        Ok(name.0@[0]@)
    }
}

/// Resolve an object name to a table name.
pub fn object_name_to_table_name(name: &ObjectName) -> (r: Result<String, PlanError>)
    ensures
        res_view(r) == spec_object_name_to_table_name(*name),
{
    if name.0.len() != 1 {
        Err(
            PlanError::Unimplemented(
                UnimplementedFeature::MultiLevelTable { object_name: join_dot(&name.0) },
            ),
        )
    } else {
        proof {
            assert(name.0.deep_view()[0] == name.0@[0]@);
        }
        Ok(name.0[0].clone())
    }
}

} // verus!
