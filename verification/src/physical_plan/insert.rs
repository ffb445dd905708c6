//! The insert operator: write rows into a table's sub-tree.

use crate::catalog::{catalog_contains, lemma_table_index_of, spec_table_index_of};
use crate::ctx::Context;
use crate::data::tuple::{spec_tuple_encode, Tuple, TupleStream};
use crate::data::types::{spec_encode, DataVal};
use crate::error::{Error, ErrorV};
use crate::storage_engine::tree_entries;
use vstd::prelude::*;
use vstd::string::*;

verus! {

/// Writes each row into the table's sub-tree, keyed by the encoded
/// primary-key scalar; displacing an existing key is a fatal fault.
#[derive(Debug)]
pub struct InsertExec {
    pub table: String,
    pub rows: Vec<Tuple>,
}

impl InsertExec {
    /// Create the operator.
    pub fn new(table: String, rows: Vec<Tuple>) -> (r: InsertExec)
        ensures
            r.table@ == table@,
            r.rows.deep_view() == rows.deep_view(),
    {
        InsertExec { table, rows }
    }
}

/// Insert the rows from position `i` on into the entry map, each keyed by
/// its encoded primary-key scalar.  A row without the primary-key column
/// or a key already mapped is a fatal fault.
pub open spec fn spec_insert_rows(
    m: Map<Seq<u8>, Seq<u8>>,
    rows: Seq<Seq<DataVal>>,
    pk: int,
    i: int,
) -> Result<Map<Seq<u8>, Seq<u8>>, ErrorV>
    decreases rows.len() - i,
{
    if i < 0 || i >= rows.len() {
        Ok(m)
    } else if !(0 <= pk < rows[i].len()) {
        Err(ErrorV::StorageError { message: "row is missing its primary-key column"@ })
    } else {
        let key = spec_encode(rows[i][pk]);
        if m.contains_key(key) {
            Err(ErrorV::StorageError { message: "duplicate primary key"@ })
        } else {
            spec_insert_rows(m.insert(key, spec_tuple_encode(rows[i])), rows, pk, i + 1)
        }
    }
}

impl InsertExec {
    /// Run the operator: look the table up, then write each row keyed by
    /// its encoded primary-key scalar.
    pub fn execute(&self, ctx: &mut Context) -> (r: Result<TupleStream, Error>)
        requires
            old(ctx).catalog.wf(),
            old(ctx).storage.wf(),
        ensures
            final (ctx).catalog == old(ctx).catalog,
            final (ctx).config == old(ctx).config,
            final (ctx).storage.wf(),
            final (ctx).storage.names() == old(ctx).storage.names(),
            forall|n: Seq<char>|
                old(ctx).storage.has_tree(n) ==> final (ctx).storage.has_tree(n),
            forall|n: Seq<char>|
                final (ctx).storage.has_tree(n) == old(ctx).storage.has_tree(n),
            forall|n: Seq<char>|
                old(ctx).storage.has_tree(n) && n != self.table@ ==> final (ctx).storage.tree_of(n)
                    == old(ctx).storage.tree_of(n),
            match r {
                Ok(s) => {
                    &&& s.wf()
                    &&& s.remaining() == Seq::<Seq<DataVal>>::empty()
                    &&& catalog_contains(old(ctx).catalog@, self.table@)
                    &&& old(ctx).storage.has_tree(self.table@)
                    &&& ({
                        let pk = old(ctx).catalog@[spec_table_index_of(
                            old(ctx).catalog@,
                            self.table@,
                        )].pk;
                        spec_insert_rows(
                            tree_entries(old(ctx).storage.tree_of(self.table@)),
                            self.rows.deep_view(),
                            pk,
                            0,
                        ) == Ok::<Map<Seq<u8>, Seq<u8>>, ErrorV>(
                            tree_entries(final (ctx).storage.tree_of(self.table@)),
                        )
                    })
                },
                Err(e) => (e is StorageError) || (!catalog_contains(
                    old(ctx).catalog@,
                    self.table@,
                ) && e@ == ErrorV::CatalogError(
                    crate::catalog::error::CatalogErrorV::TableDoesNotExist { name: self.table@ },
                ) && *final (ctx) == *old(ctx)),
            },
    {
        proof {
            lemma_table_index_of(ctx.catalog@, self.table@);
        }
        let pk = match ctx.catalog.get_table(self.table.as_str()) {
            Err(e) => {
                return Err(Error::CatalogError(e));
            },
            Ok(t) => t.pk(),
        };
        if !ctx.storage.contains_table(self.table.as_str()) {
            return Err(
                Error::StorageError {
                    message: String::from_str("table sub-tree is missing"),
                },
            );
        }
        let ghost rv = self.rows.deep_view();
        let n = self.rows.len();
        proof {
            assert(rv.len() == self.rows@.len());
        }
        for i in 0..n
            invariant
                rv == self.rows.deep_view(),
                n == self.rows.len(),
                n == rv.len(),
                ctx.catalog == old(ctx).catalog,
                ctx.config == old(ctx).config,
                ctx.catalog.wf(),
                ctx.storage.wf(),
                ctx.storage.names() == old(ctx).storage.names(),
                forall|m: Seq<char>|
                    ctx.storage.has_tree(m) == old(ctx).storage.has_tree(m),
                forall|m: Seq<char>|
                    old(ctx).storage.has_tree(m) && m != self.table@ ==> ctx.storage.tree_of(m)
                        == old(ctx).storage.tree_of(m),
                catalog_contains(old(ctx).catalog@, self.table@),
                old(ctx).storage.has_tree(self.table@),
                pk == old(ctx).catalog@[spec_table_index_of(old(ctx).catalog@, self.table@)].pk,
                spec_insert_rows(
                    tree_entries(old(ctx).storage.tree_of(self.table@)),
                    rv,
                    pk as int,
                    0,
                ) == spec_insert_rows(
                    tree_entries(ctx.storage.tree_of(self.table@)),
                    rv,
                    pk as int,
                    i as int,
                ),
        {
            let row = &self.rows[i];
            proof {
                assert(rv[i as int] == self.rows@[i as int].deep_view());
            }
            let key = match row.get(pk) {
                None => {
                    return Err(
                        Error::StorageError {
                            message: String::from_str("row is missing its primary-key column"),
                        },
                    );
                },
                Some(d) => d.encode(),
            };
            let value = row.encode();
            match ctx.storage.insert_into(self.table.as_str(), key.as_slice(), value.as_slice()) {
                Err(e) => {
                    match e {
                        Error::StorageError { message } => {
                            return Err(Error::StorageError { message });
                        },
                        _ => {
                            return Err(
                                Error::StorageError {
                                    message: String::from_str("table sub-tree is missing"),
                                },
                            );
                        },
                    }
                },
                Ok(Some(_)) => {
                    return Err(
                        Error::StorageError {
                            message: String::from_str("duplicate primary key"),
                        },
                    );
                },
                Ok(None) => {},
            }
        }
        Ok(TupleStream::new(Vec::new()))
    }
}


/// What a successful insert fold builds: the original entries plus one
/// entry per row, keyed by the row's encoded primary-key scalar, all keys
/// fresh and pairwise distinct.
pub proof fn lemma_insert_rows_props(
    m0: Map<Seq<u8>, Seq<u8>>,
    rows: Seq<Seq<DataVal>>,
    pk: int,
    i: int,
)
    requires
        0 <= i <= rows.len(),
        m0.dom().finite(),
        spec_insert_rows(m0, rows, pk, i) is Ok,
    ensures
        spec_insert_rows(m0, rows, pk, i)->Ok_0.dom().finite(),
        spec_insert_rows(m0, rows, pk, i)->Ok_0.dom().len() == m0.dom().len() + (rows.len() - i),
        forall|key: Seq<u8>|
            #[trigger] m0.contains_key(key) ==> spec_insert_rows(
                m0,
                rows,
                pk,
                i,
            )->Ok_0.contains_key(key) && spec_insert_rows(m0, rows, pk, i)->Ok_0[key] == m0[key],
        forall|k: int|
            i <= k < rows.len() ==> 0 <= pk < (#[trigger] rows[k]).len() && spec_insert_rows(
                m0,
                rows,
                pk,
                i,
            )->Ok_0.contains_key(spec_encode(rows[k][pk])) && spec_insert_rows(
                m0,
                rows,
                pk,
                i,
            )->Ok_0[spec_encode(rows[k][pk])] == spec_tuple_encode(rows[k]),
        forall|key: Seq<u8>|
            #[trigger] spec_insert_rows(m0, rows, pk, i)->Ok_0.contains_key(key)
                ==> m0.contains_key(key) || exists|k: int|
                i <= k < rows.len() && key == spec_encode(rows[k][pk]),
    decreases rows.len() - i,
{
    broadcast use vstd::set::group_set_axioms;

    if i < rows.len() {
        let key = spec_encode(rows[i][pk]);
        let m1 = m0.insert(key, spec_tuple_encode(rows[i]));
        assert(m1.dom() =~= m0.dom().insert(key));
        lemma_insert_rows_props(m1, rows, pk, i + 1);
        let m = spec_insert_rows(m0, rows, pk, i)->Ok_0;
        assert(m == spec_insert_rows(m1, rows, pk, i + 1)->Ok_0);
        assert(!m0.contains_key(key));
        assert(m1.dom().len() == m0.dom().len() + 1);
        assert forall|key2: Seq<u8>|
            #[trigger] m0.contains_key(key2) implies m.contains_key(key2) && m[key2]
            == m0[key2] by {
            assert(m1.contains_key(key2));
            assert(m1[key2] == m0[key2]);
        }
        assert forall|k: int|
            i <= k < rows.len() implies 0 <= pk < (#[trigger] rows[k]).len() && m.contains_key(
            spec_encode(rows[k][pk]),
        ) && m[spec_encode(rows[k][pk])] == spec_tuple_encode(rows[k]) by {
            if k == i {
                assert(m1.contains_key(key));
                assert(m1[key] == spec_tuple_encode(rows[i]));
                assert(m.contains_key(key) && m[key] == m1[key]);
            }
        }
        assert forall|key2: Seq<u8>|
            #[trigger] m.contains_key(key2) implies m0.contains_key(key2) || exists|k: int|
            i <= k < rows.len() && key2 == spec_encode(rows[k][pk]) by {
            if !m0.contains_key(key2) {
                if m1.contains_key(key2) {
                    assert(key2 == spec_encode(rows[i][pk]));
                } else {
                    let k = choose|k: int|
                        i + 1 <= k < rows.len() && key2 == spec_encode(rows[k][pk]);
                    assert(i <= k < rows.len() && key2 == spec_encode(rows[k][pk]));
                }
            }
        }
    }
}

} // verus!
