//! The error type every stage of the pipeline reports through.

use crate::catalog::error::{CatalogError, CatalogErrorV};
use crate::meta_cmd::{MetaCmdError, MetaCmdErrorV};
use crate::plan::error::{PlanError, PlanErrorV};
use vstd::prelude::*;

verus! {

/// Any error a session can surface: parsing, planning, catalog lookup, meta
/// commands, storage, or filesystem setup.  The parse, storage and I/O cases
/// carry the collaborator's message.
#[derive(Debug)]
pub enum Error {
    SqlParserError { message: String },
    PlanError(PlanError),
    CatalogError(CatalogError),
    MetaCmdError(MetaCmdError),
    StorageError { message: String },
    IoError { message: String },
}

/// The mathematical value of an [`Error`].
pub enum ErrorV {
    SqlParserError { message: Seq<char> },
    PlanError(PlanErrorV),
    CatalogError(CatalogErrorV),
    MetaCmdError(MetaCmdErrorV),
    StorageError { message: Seq<char> },
    IoError { message: Seq<char> },
}

impl View for Error {
    type V = ErrorV;

    open spec fn view(&self) -> ErrorV {
        match self {
            Error::SqlParserError { message } => ErrorV::SqlParserError { message: message@ },
            Error::PlanError(e) => ErrorV::PlanError(e@),
            Error::CatalogError(e) => ErrorV::CatalogError(e@),
            Error::MetaCmdError(e) => ErrorV::MetaCmdError(e@),
            Error::StorageError { message } => ErrorV::StorageError { message: message@ },
            Error::IoError { message } => ErrorV::IoError { message: message@ },
        }
    }
}

impl DeepView for Error {
    type V = ErrorV;

    open spec fn deep_view(&self) -> ErrorV {
        self.view()
    }
}

/// The deep view of a `Result`, component-wise.
pub open spec fn res_view<T: DeepView, E: DeepView>(r: Result<T, E>) -> Result<T::V, E::V> {
    match r {
        Ok(t) => Ok(t.deep_view()),
        Err(e) => Err(e.deep_view()),
    }
}

} // verus!
