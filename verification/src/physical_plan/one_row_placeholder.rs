//! The placeholder operator: a single empty row.

use vstd::prelude::*;

verus! {

/// Emits exactly one empty tuple; the source of a `SELECT` without `FROM`.
#[derive(Debug)]
pub struct OneRowPlaceholderExec;

} // verus!
