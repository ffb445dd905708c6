//! The table-scan operator: read a table's rows in key order.

use crate::catalog::error::CatalogErrorV;
use crate::catalog::schema::{ColumnV, Schema};
use crate::data::tuple::{spec_tuple_decode, Tuple};
use crate::data::types::DataVal;
use crate::error::{Error, ErrorV};
use crate::storage_engine::{tree_sorted_entries, StorageEngine};
use vstd::prelude::*;

verus! {

/// Iterates the named table's sub-tree in ascending key order, decoding
/// each value under the table's schema.
#[derive(Debug)]
pub struct TableScanExec {
    pub table: String,
    pub schema: Schema,
}

impl TableScanExec {
    /// Create a scan of the named table.
    pub fn new(table: String, schema: Schema) -> (r: TableScanExec)
        ensures
            r.table@ == table@,
            r.schema@ == schema@,
    {
        TableScanExec { table, schema }
    }
}

/// Decode the values of the listed entries from position `i` on; a value
/// that does not decode under the schema is a storage fault.
pub open spec fn spec_decode_listing(
    listing: Seq<(Seq<u8>, Seq<u8>)>,
    schema: Seq<ColumnV>,
    i: int,
) -> Result<Seq<Seq<DataVal>>, ErrorV>
    decreases listing.len() - i,
{
    if i < 0 || i >= listing.len() {
        Ok(Seq::empty())
    } else {
        match spec_tuple_decode(listing[i].1, schema) {
            None => Err(ErrorV::StorageError { message: "stored row does not decode"@ }),
            Some(t) => match spec_decode_listing(listing, schema, i + 1) {
                Err(e) => Err(e),
                Ok(rest) => Ok(seq![t] + rest),
            },
        }
    }
}

/// The rows a scan of `name` under `schema` yields: the sub-tree's values
/// in ascending key order, each decoded under the schema.
pub open spec fn spec_scan_rows(
    store: StorageEngine,
    name: Seq<char>,
    schema: Seq<ColumnV>,
) -> Result<Seq<Seq<DataVal>>, ErrorV> {
    if !store.has_tree(name) {
        Err(ErrorV::CatalogError(CatalogErrorV::TableDoesNotExist { name }))
    } else {
        spec_decode_listing(tree_sorted_entries(store.tree_of(name)), schema, 0)
    }
}

/// Scan the named table and decode its rows.
pub fn scan_rows(store: &StorageEngine, name: &str, schema: &Schema) -> (r: Result<
    Vec<Tuple>,
    Error,
>)
    requires
        store.wf(),
    ensures
        match r {
            Ok(rows) => spec_scan_rows(*store, name@, schema@) == Ok::<
                Seq<Seq<DataVal>>,
                ErrorV,
            >(rows.deep_view()),
            Err(e) => (e is StorageError) || spec_scan_rows(*store, name@, schema@) == Err::<
                Seq<Seq<DataVal>>,
                ErrorV,
            >(e@),
        },
{
    let pairs = match store.scan_table(name) {
        Err(e) => {
            return Err(e);
        },
        Ok(pairs) => pairs,
    };
    let ghost listing = tree_sorted_entries(store.tree_of(name@));
    let n = pairs.len();
    let mut rows: Vec<Tuple> = Vec::new();
    proof {
        assert(pairs.deep_view().len() == pairs@.len());
        assert(rows.deep_view() =~= Seq::<Seq<DataVal>>::empty());
        match spec_decode_listing(listing, schema@, 0) {
            Err(_) => {},
            Ok(rest) => {
                assert(rows.deep_view() + rest =~= rest);
            },
        }
    }
    for i in 0..n
        invariant
            store.wf(),
            store.has_tree(name@),
            listing == tree_sorted_entries(store.tree_of(name@)),
            pairs.deep_view() == listing,
            n == pairs.len(),
            n == listing.len(),
            spec_decode_listing(listing, schema@, 0) == match spec_decode_listing(
                listing,
                schema@,
                i as int,
            ) {
                Err(e) => Err::<Seq<Seq<DataVal>>, ErrorV>(e),
                Ok(rest) => Ok(rows.deep_view() + rest),
            },
    {
        proof {
            assert(pairs.deep_view()[i as int] == pairs@[i as int].deep_view());
            assert(pairs@[i as int].deep_view() == (
                pairs@[i as int].0.deep_view(),
                pairs@[i as int].1.deep_view(),
            ));
            assert(pairs@[i as int].1.deep_view() =~= pairs@[i as int].1@);
            assert(listing[i as int].1 == pairs@[i as int].1@);
        }
        match Tuple::decode(pairs[i].1.as_slice(), schema) {
            None => {
                return Err(
                    Error::StorageError {
                        message: String::from_str("stored row does not decode"),
                    },
                );
            },
            Some(t) => {
                proof {
                    assert(rows.deep_view().len() == rows@.len());
                }
                let ghost tv = t@;
                let ghost prev = rows@;
                rows.push(t);
                proof {
                    assert(rows@.len() == prev.len() + 1);
                    assert(forall|j: int| 0 <= j < prev.len() ==> rows@[j] == prev[j]);
                    let rd = rows.deep_view();
                    assert(rd[prev.len() as int] == tv);
                    match spec_decode_listing(listing, schema@, i + 1) {
                        Err(_) => {},
                        Ok(rest2) => {
                            assert((Seq::new(prev.len() as nat, |j: int| prev[j].deep_view()) + (
                            seq![tv] + rest2)) =~= (rd + rest2));
                        },
                    }
                }
            },
        }
    }
    proof {
        match spec_decode_listing(listing, schema@, n as int) {
            Err(_) => {
                assert(false);
            },
            Ok(rest) => {
                assert(rows.deep_view() + rest =~= rows.deep_view());
            },
        }
    }
    Ok(rows)
}


/// When every listed value decodes, the whole listing decodes, pointwise.
proof fn lemma_decode_listing_ok(listing: Seq<(Seq<u8>, Seq<u8>)>, schema: Seq<ColumnV>, i: int)
    requires
        0 <= i <= listing.len(),
        forall|j: int|
            i <= j < listing.len() ==> spec_tuple_decode(#[trigger] listing[j].1, schema) is Some,
    ensures
        spec_decode_listing(listing, schema, i) is Ok,
        spec_decode_listing(listing, schema, i)->Ok_0.len() == listing.len() - i,
        forall|j: int|
            i <= j < listing.len() ==> #[trigger] spec_decode_listing(listing, schema, i)->Ok_0[j
                - i] == spec_tuple_decode(listing[j].1, schema)->Some_0,
    decreases listing.len() - i,
{
    if i < listing.len() {
        lemma_decode_listing_ok(listing, schema, i + 1);
        let rest = spec_decode_listing(listing, schema, i + 1)->Ok_0;
        let t = spec_tuple_decode(listing[i].1, schema)->Some_0;
        assert(spec_decode_listing(listing, schema, i)->Ok_0 == seq![t] + rest);
        assert forall|j: int|
            i <= j < listing.len() implies #[trigger] spec_decode_listing(listing, schema, i)->Ok_0[
            j - i] == spec_tuple_decode(listing[j].1, schema)->Some_0 by {
            if j == i {
                assert((seq![t] + rest)[0] == t);
            } else {
                assert((seq![t] + rest)[j - i] == rest[j - i - 1]);
                assert(rest[j - (i + 1)] == spec_tuple_decode(listing[j].1, schema)->Some_0);
            }
        }
    }
}

/// What an insert wrote is what a scan reads back: after filling an empty
/// table with rows whose inserts all succeeded, a scan yields exactly
/// those rows, in ascending byte order of their encoded primary keys.
#[verifier::rlimit(60)]
pub proof fn lemma_scan_returns_inserted(
    store: StorageEngine,
    name: Seq<char>,
    schema: Seq<ColumnV>,
    rows: Seq<Seq<DataVal>>,
    pk: int,
)
    requires
        store.wf(),
        store.has_tree(name),
        forall|k: int|
            0 <= k < rows.len() ==> crate::data::tuple::tuple_conforms(#[trigger] rows[k], schema),
        forall|k: int| 0 <= k < rows.len() ==> crate::data::tuple::tuple_wf(#[trigger] rows[k]),
        crate::physical_plan::insert::spec_insert_rows(
            Map::<Seq<u8>, Seq<u8>>::empty(),
            rows,
            pk,
            0,
        ) is Ok,
        crate::storage_engine::tree_entries(store.tree_of(name))
            == crate::physical_plan::insert::spec_insert_rows(
            Map::<Seq<u8>, Seq<u8>>::empty(),
            rows,
            pk,
            0,
        )->Ok_0,
    ensures
        spec_scan_rows(store, name, schema) is Ok,
        ({
            let out = spec_scan_rows(store, name, schema)->Ok_0;
            &&& out.len() == rows.len()
            &&& forall|j: int|
                0 <= j < out.len() ==> exists|k: int|
                    0 <= k < rows.len() && #[trigger] out[j] == rows[k]
            &&& forall|k: int|
                0 <= k < rows.len() ==> exists|j: int|
                    0 <= j < out.len() && out[j] == #[trigger] rows[k]
            &&& forall|j1: int, j2: int|
                0 <= j1 < j2 < out.len() ==> crate::text::lex_lt_bytes(
                    crate::data::types::spec_encode(out[j1][pk]),
                    crate::data::types::spec_encode(out[j2][pk]),
                )
        }),
{
    broadcast use vstd::set::group_set_axioms;

    let empty_map = Map::<Seq<u8>, Seq<u8>>::empty();
    assert(empty_map.dom() =~= Set::<Seq<u8>>::empty());
    crate::physical_plan::insert::lemma_insert_rows_props(empty_map, rows, pk, 0);
    let m = crate::physical_plan::insert::spec_insert_rows(empty_map, rows, pk, 0)->Ok_0;
    let t = store.tree_of(name);
    crate::storage_engine::lemma_name_index_of(store.names(), name);
    assert(crate::storage_engine::tree_listing_wf(t));
    let l = tree_sorted_entries(t);

    // Every listed entry carries the encoding of one of the rows.
    assert forall|j: int|
        0 <= j < l.len() implies exists|k: int|
        0 <= k < rows.len() && #[trigger] l[j].0 == crate::data::types::spec_encode(rows[k][pk])
            && l[j].1 == crate::data::tuple::spec_tuple_encode(rows[k]) by {
        assert(m.contains_key(l[j].0));
        let k = choose|k: int|
            0 <= k < rows.len() && l[j].0 == crate::data::types::spec_encode(rows[k][pk]);
        assert(m[l[j].0] == crate::data::tuple::spec_tuple_encode(rows[k]));
    }

    // So every listed value decodes back to that row.
    assert forall|j: int|
        0 <= j < l.len() implies spec_tuple_decode(#[trigger] l[j].1, schema) is Some by {
        let k = choose|k: int|
            0 <= k < rows.len() && l[j].0 == crate::data::types::spec_encode(rows[k][pk]) && l[
                j
            ].1 == crate::data::tuple::spec_tuple_encode(rows[k]);
        crate::data::tuple::lemma_tuple_round_trip(rows[k], schema);
    }
    lemma_decode_listing_ok(l, schema, 0);
    let out = spec_decode_listing(l, schema, 0)->Ok_0;

    // The listing keys are pairwise distinct, so they cover the key set
    // exactly once.
    assert forall|j1: int, j2: int| 0 <= j1 < j2 < l.len() implies l[j1].0 != l[j2].0 by {
        if l[j1].0 == l[j2].0 {
            crate::text::lemma_lex_lt_bytes_irrefl(l[j1].0);
        }
    }
    let keys = Seq::new(l.len(), |j: int| l[j].0);
    assert(keys.no_duplicates()) by {
        assert(forall|j1: int, j2: int|
            0 <= j1 < j2 < keys.len() ==> keys[j1] != keys[j2]);
    }
    keys.unique_seq_to_set();
    assert(keys.to_set() =~= m.dom()) by {
        assert forall|key: Seq<u8>| #[trigger] m.dom().contains(key) implies keys.to_set().contains(
            key,
        ) by {
            let j = choose|j: int| 0 <= j < l.len() && l[j].0 == key;
            assert(keys[j] == key);
        }
        assert forall|key: Seq<u8>| #[trigger] keys.to_set().contains(key) implies m.dom().contains(
            key,
        ) by {
            let j = choose|j: int| 0 <= j < keys.len() && keys[j] == key;
            assert(m.contains_key(l[j].0));
        }
    }
    assert(l.len() == m.dom().len());
    assert(out.len() == rows.len());

    // Each output row is one of the inserted rows, and each inserted row
    // appears in the output.
    assert forall|j: int|
        0 <= j < out.len() implies exists|k: int|
        0 <= k < rows.len() && #[trigger] out[j] == rows[k] by {
        let k = choose|k: int|
            0 <= k < rows.len() && l[j].0 == crate::data::types::spec_encode(rows[k][pk]) && l[
                j
            ].1 == crate::data::tuple::spec_tuple_encode(rows[k]);
        crate::data::tuple::lemma_tuple_round_trip(rows[k], schema);
        assert(spec_decode_listing(l, schema, 0)->Ok_0[j - 0] == spec_tuple_decode(
            l[j].1,
            schema,
        )->Some_0);
        assert(out[j] == rows[k]);
    }
    assert forall|k: int|
        0 <= k < rows.len() implies exists|j: int|
        0 <= j < out.len() && out[j] == #[trigger] rows[k] by {
        let key = crate::data::types::spec_encode(rows[k][pk]);
        assert(m.dom().contains(key));
        let j = choose|j: int| 0 <= j < l.len() && l[j].0 == key;
        assert(l[j].1 == m[key]);
        assert(l[j].1 == crate::data::tuple::spec_tuple_encode(rows[k]));
        crate::data::tuple::lemma_tuple_round_trip(rows[k], schema);
        assert(spec_decode_listing(l, schema, 0)->Ok_0[j - 0] == spec_tuple_decode(
            l[j].1,
            schema,
        )->Some_0);
        assert(out[j] == rows[k]);
    }

    // The output comes in ascending key order.
    assert forall|j1: int, j2: int|
        0 <= j1 < j2 < out.len() implies crate::text::lex_lt_bytes(
        crate::data::types::spec_encode(out[j1][pk]),
        crate::data::types::spec_encode(out[j2][pk]),
    ) by {
        let k1 = choose|k: int|
            0 <= k < rows.len() && l[j1].0 == crate::data::types::spec_encode(rows[k][pk]) && l[
                j1
            ].1 == crate::data::tuple::spec_tuple_encode(rows[k]);
        let k2 = choose|k: int|
            0 <= k < rows.len() && l[j2].0 == crate::data::types::spec_encode(rows[k][pk]) && l[
                j2
            ].1 == crate::data::tuple::spec_tuple_encode(rows[k]);
        crate::data::tuple::lemma_tuple_round_trip(rows[k1], schema);
        crate::data::tuple::lemma_tuple_round_trip(rows[k2], schema);
        assert(spec_decode_listing(l, schema, 0)->Ok_0[j1 - 0] == spec_tuple_decode(
            l[j1].1,
            schema,
        )->Some_0);
        assert(spec_decode_listing(l, schema, 0)->Ok_0[j2 - 0] == spec_tuple_decode(
            l[j2].1,
            schema,
        )->Some_0);
        assert(out[j1] == rows[k1]);
        assert(out[j2] == rows[k2]);
        assert(crate::data::types::spec_encode(out[j1][pk]) == l[j1].0);
        assert(crate::data::types::spec_encode(out[j2][pk]) == l[j2].0);
    }
}

} // verus!
