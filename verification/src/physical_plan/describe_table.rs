//! The describe-table operator: one row per column of a table.

use crate::catalog::error::CatalogErrorV;
use crate::catalog::{catalog_contains, lemma_table_index_of, spec_table_index_of, Catalog, TableV};
use crate::data::tuple::Tuple;
use crate::data::types::{Data, DataVal};
use crate::error::{Error, ErrorV};
use vstd::prelude::*;
use vstd::string::*;

verus! {

/// Emits one row per column of the named table: name, upper-case datatype,
/// `"YES"` for nullability, and whether the column is the primary key.
#[derive(Debug)]
pub struct DescribeTableExec {
    pub name: String,
}

impl DescribeTableExec {
    /// Create a description of the named table.
    pub fn new(name: String) -> (r: DescribeTableExec)
        ensures
            r.name@ == name@,
    {
        DescribeTableExec { name }
    }
}

/// The description row of one column of `t`.
pub open spec fn spec_describe_row(t: TableV, i: int) -> Seq<DataVal> {
    seq![
        DataVal::String(t.schema[i].name),
        DataVal::String(t.schema[i].datatype.spec_display()),
        DataVal::String("YES"@),
        DataVal::String(
            if i == t.pk {
                "YES"@
            } else {
                "NO"@
            },
        ),
    ]
}

/// One description row per column of the named table, or *table-missing*.
pub open spec fn spec_describe_rows(cat: Seq<TableV>, name: Seq<char>) -> Result<
    Seq<Seq<DataVal>>,
    ErrorV,
> {
    if !catalog_contains(cat, name) {
        Err(ErrorV::CatalogError(CatalogErrorV::TableDoesNotExist { name }))
    } else {
        let t = cat[spec_table_index_of(cat, name)];
        Ok(Seq::new(t.schema.len(), |i: int| spec_describe_row(t, i)))
    }
}

/// Describe the named table's columns.
pub fn describe_rows(catalog: &Catalog, name: &str) -> (r: Result<Vec<Tuple>, Error>)
    ensures
        match r {
            Ok(rows) => spec_describe_rows(catalog@, name@) == Ok::<Seq<Seq<DataVal>>, ErrorV>(
                rows.deep_view(),
            ),
            Err(e) => spec_describe_rows(catalog@, name@) == Err::<Seq<Seq<DataVal>>, ErrorV>(e@),
        },
{
    proof {
        lemma_table_index_of(catalog@, name@);
    }
    let table = match catalog.get_table(name) {
        Err(e) => {
            return Err(Error::CatalogError(e));
        },
        Ok(t) => t,
    };
    let ghost tv = catalog@[spec_table_index_of(catalog@, name@)];
    let schema = table.schema();
    let cols = schema.columns();
    let pk = table.pk();
    let n = cols.len();
    let mut out: Vec<Tuple> = Vec::new();
    proof {
        assert(cols.deep_view() == tv.schema);
        assert(out.deep_view() =~= Seq::new(tv.schema.len(), |i: int| spec_describe_row(tv, i))
            .take(0));
    }
    for i in 0..n
        invariant
            cols.deep_view() == tv.schema,
            n == cols.len(),
            n == tv.schema.len(),
            pk == tv.pk,
            out.deep_view() == Seq::new(tv.schema.len(), |j: int| spec_describe_row(tv, j)).take(
                i as int,
            ),
    {
        proof {
            assert(cols.deep_view()[i as int] == cols@[i as int].deep_view());
            assert(out.deep_view().len() == out@.len());
        }
        let mut cells: Vec<Data> = Vec::new();
        cells.push(Data::String(cols[i].name.clone()));
        cells.push(Data::String(cols[i].datatype.display()));
        cells.push(Data::String(String::from_str("YES")));
        if i == pk {
            cells.push(Data::String(String::from_str("YES")));
        } else {
            cells.push(Data::String(String::from_str("NO")));
        }
        let t = Tuple::new(cells);
        proof {
            assert(t@ =~= spec_describe_row(tv, i as int));
        }
        let ghost prev = out@;
        out.push(t);
        proof {
            assert(out@.len() == prev.len() + 1);
            assert(forall|j: int| 0 <= j < prev.len() ==> out@[j] == prev[j]);
            assert(out.deep_view() =~= Seq::new(
                tv.schema.len(),
                |j: int| spec_describe_row(tv, j),
            ).take(i + 1));
        }
    }
    proof {
        assert(Seq::new(tv.schema.len(), |j: int| spec_describe_row(tv, j)).take(n as int)
            =~= Seq::new(tv.schema.len(), |j: int| spec_describe_row(tv, j)));
    }
    Ok(out)
}

} // verus!
