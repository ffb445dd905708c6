//! The explain operator: list the operator chain instead of running it.

use crate::physical_plan::PhysicalPlan;
use vstd::prelude::*;

verus! {

/// Emits one row per operator of its child chain, root first, without
/// executing any of them.
#[derive(Debug)]
pub struct ExplainExec {
    pub plan: Box<PhysicalPlan>,
}

impl ExplainExec {
    /// Create an explanation of `plan`.
    pub fn new(plan: Box<PhysicalPlan>) -> (r: ExplainExec)
        ensures
            r.plan == plan,
    {
        ExplainExec { plan }
    }
}

} // verus!
