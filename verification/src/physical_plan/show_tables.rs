//! The show-tables operator: one row per user table.

use crate::catalog::{Catalog, TableV};
use crate::catalog::vinyl_table;
use crate::data::tuple::Tuple;
use crate::data::types::{Data, DataVal};
use vstd::prelude::*;
use vstd::string::*;

verus! {

/// Emits one single-column row per user table, in catalog insertion order;
/// the reserved catalog table itself is excluded.
#[derive(Debug)]
pub struct ShowTablesExec;

/// One row per user table of the catalog, holding the table's name; the
/// reserved catalog table is excluded.
pub open spec fn spec_show_rows(cat: Seq<TableV>) -> Seq<Seq<DataVal>>
    decreases cat.len(),
{
    if cat.len() == 0 {
        Seq::empty()
    } else {
        spec_show_rows(cat.drop_last()) + (if cat.last().name == vinyl_table::TABLE_NAME@ {
            Seq::empty()
        } else {
            seq![seq![DataVal::String(cat.last().name)]]
        })
    }
}

/// List the user tables of the catalog.
pub fn show_rows(catalog: &Catalog) -> (r: Vec<Tuple>)
    ensures
        r.deep_view() == spec_show_rows(catalog@),
{
    let tables = catalog.tables();
    let n = tables.len();
    let mut out: Vec<Tuple> = Vec::new();
    proof {
        assert(tables.deep_view().len() == tables@.len());
        assert(catalog@.take(0) =~= Seq::<TableV>::empty());
        assert(out.deep_view() =~= spec_show_rows(catalog@.take(0)));
    }
    for i in 0..n
        invariant
            tables.deep_view() == catalog@,
            n == tables.len(),
            n == catalog@.len(),
            out.deep_view() == spec_show_rows(catalog@.take(i as int)),
    {
        proof {
            assert(tables.deep_view()[i as int] == tables@[i as int].deep_view());
            assert(catalog@.take(i + 1).drop_last() =~= catalog@.take(i as int));
            assert(catalog@.take(i + 1).last() == catalog@[i as int]);
        }
        let name = tables[i].name();
        if !crate::text::str_eq(name, vinyl_table::TABLE_NAME) {
            proof {
                assert(out.deep_view().len() == out@.len());
            }
            let mut cells: Vec<Data> = Vec::new();
            cells.push(Data::String(name.to_owned()));
            let t = Tuple::new(cells);
            proof {
                assert(t@ =~= seq![DataVal::String(catalog@[i as int].name)]);
            }
            let ghost tv = t@;
            let ghost prev = out@;
            out.push(t);
            proof {
                assert(out@.len() == prev.len() + 1);
                assert(forall|j: int| 0 <= j < prev.len() ==> out@[j] == prev[j]);
                assert(out.deep_view() =~= spec_show_rows(catalog@.take(i + 1)));
            }
        } else {
            proof {
                assert(out.deep_view() =~= spec_show_rows(catalog@.take(i + 1)));
            }
        }
    }
    proof {
        assert(catalog@.take(n as int) =~= catalog@);
    }
    out
}

} // verus!
