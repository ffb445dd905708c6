//! Errors raised by the catalog and by schema construction.

use vstd::prelude::*;

verus! {

/// A catalog operation failed.
#[derive(Debug)]
pub enum CatalogError {
    TableExists { name: String },
    TableDoesNotExist { name: String },
    ColumnExists { name: String },
    /// The column is not in the schema; `candidate` lists the names that are.
    ColumnDoesNotExist { column: String, candidate: Vec<String> },
}

/// The mathematical value of a [`CatalogError`].
pub enum CatalogErrorV {
    TableExists { name: Seq<char> },
    TableDoesNotExist { name: Seq<char> },
    ColumnExists { name: Seq<char> },
    ColumnDoesNotExist { column: Seq<char>, candidate: Seq<Seq<char>> },
}

impl View for CatalogError {
    type V = CatalogErrorV;

    open spec fn view(&self) -> CatalogErrorV {
        match self {
            CatalogError::TableExists { name } => CatalogErrorV::TableExists { name: name@ },
            CatalogError::TableDoesNotExist { name } => CatalogErrorV::TableDoesNotExist {
                name: name@,
            },
            CatalogError::ColumnExists { name } => CatalogErrorV::ColumnExists { name: name@ },
            CatalogError::ColumnDoesNotExist { column, candidate } => {
                CatalogErrorV::ColumnDoesNotExist {
                    column: column@,
                    candidate: candidate.deep_view(),
                }
            },
        }
    }
}

impl DeepView for CatalogError {
    type V = CatalogErrorV;

    open spec fn deep_view(&self) -> CatalogErrorV {
        self.view()
    }
}

} // verus!
