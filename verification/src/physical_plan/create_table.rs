//! The create-table operator: register, create storage, persist.

use crate::catalog::schema::Schema;
use crate::catalog::vinyl_table;
use crate::catalog::{Table, TableV};
use crate::ctx::Context;
use crate::data::tuple::{spec_tuple_encode, Tuple, TupleStream};
use crate::data::types::{spec_encode, Data, DataVal};
use crate::error::{Error, ErrorV};
use crate::storage_engine::tree_entries;
use vstd::prelude::*;

verus! {

/// Registers the table in the catalog, creates its storage sub-tree, and
/// records the statement in the reserved catalog sub-tree.
#[derive(Debug)]
pub struct CreateTableExec {
    pub name: String,
    pub schema: Schema,
    pub pk: usize,
    pub sql: String,
}

impl CreateTableExec {
    /// Create the operator.
    pub fn new(name: String, schema: Schema, pk: usize, sql: String) -> (r: CreateTableExec)
        ensures
            r.name@ == name@,
            r.schema@ == schema@,
            r.pk == pk,
            r.sql@ == sql@,
    {
        CreateTableExec { name, schema, pk, sql }
    }

    /// The key and value of the catalog row this operator persists: the
    /// encoded table name maps to the encoded `(name, sql)` row.
    pub open spec fn spec_catalog_row(&self) -> (Seq<u8>, Seq<u8>) {
        (
            spec_encode(DataVal::String(self.name@)),
            spec_tuple_encode(seq![DataVal::String(self.name@), DataVal::String(self.sql@)]),
        )
    }

    /// Run the operator: register the descriptor (failing with
    /// *table-exists* and touching nothing when the name is taken), create
    /// the sub-tree, and insert the catalog row.  A storage fault after
    /// registration leaves the catalog ahead of storage; the session treats
    /// it as fatal.
    pub fn execute(&self, ctx: &mut Context) -> (r: Result<TupleStream, Error>)
        requires
            old(ctx).catalog.wf(),
            old(ctx).storage.wf(),
            old(ctx).storage.has_tree(vinyl_table::TABLE_NAME@),
            crate::catalog::schema::schema_wf(self.schema@),
            0 <= self.pk < self.schema@.len(),
        ensures
            final (ctx).catalog.wf(),
            final (ctx).storage.wf(),
            final (ctx).config == old(ctx).config,
            forall|n: Seq<char>|
                old(ctx).storage.has_tree(n) ==> final (ctx).storage.has_tree(n),
            match r {
                Ok(s) => {
                    &&& s.wf()
                    &&& s.remaining() == Seq::<Seq<DataVal>>::empty()
                    &&& !crate::catalog::catalog_contains(old(ctx).catalog@, self.name@)
                    &&& final (ctx).catalog@ == old(ctx).catalog@.push(
                        TableV { name: self.name@, schema: self.schema@, pk: self.pk as int },
                    )
                    &&& final (ctx).storage.has_tree(self.name@)
                    &&& final (ctx).storage.has_tree(vinyl_table::TABLE_NAME@)
                    &&& tree_entries(final (ctx).storage.tree_of(vinyl_table::TABLE_NAME@))
                        == tree_entries(old(ctx).storage.tree_of(vinyl_table::TABLE_NAME@)).insert(
                        self.spec_catalog_row().0,
                        self.spec_catalog_row().1,
                    )
                    &&& forall|n: Seq<char>|
                        old(ctx).storage.has_tree(n) ==> final (ctx).storage.has_tree(n)
                    &&& forall|n: Seq<char>|
                        old(ctx).storage.has_tree(n) && n != vinyl_table::TABLE_NAME@ && n
                            != self.name@ ==> final (ctx).storage.tree_of(n) == old(
                            ctx,
                        ).storage.tree_of(n)
                },
                Err(e) => (crate::catalog::catalog_contains(old(ctx).catalog@, self.name@) && e@
                    == ErrorV::CatalogError(
                    crate::catalog::error::CatalogErrorV::TableExists { name: self.name@ },
                ) && *final (ctx) == *old(ctx)) || ((e is StorageError) && final (ctx).catalog@
                    == old(ctx).catalog@.push(
                    TableV { name: self.name@, schema: self.schema@, pk: self.pk as int },
                )),
            },
    {
        let descriptor = Table::new(self.name.clone(), self.schema.clone(), self.pk);
        match ctx.catalog.add_table(descriptor) {
            Err(e) => {
                return Err(Error::CatalogError(e));
            },
            Ok(()) => {},
        }
        match ctx.storage.add_table(self.name.clone()) {
            Err(e) => {
                return Err(e);
            },
            Ok(()) => {},
        }
        proof {
            assert(self.name@ != vinyl_table::TABLE_NAME@);
            assert(ctx.storage.tree_of(vinyl_table::TABLE_NAME@) == old(ctx).storage.tree_of(
                vinyl_table::TABLE_NAME@,
            ));
        }
        let mut cells: Vec<Data> = Vec::new();
        cells.push(Data::String(self.name.clone()));
        cells.push(Data::String(self.sql.clone()));
        let row = Tuple::new(cells);
        proof {
            assert(row@ =~= seq![DataVal::String(self.name@), DataVal::String(self.sql@)]);
        }
        let key = Data::String(self.name.clone()).encode();
        let value = row.encode();
        match ctx.storage.insert_into(
            vinyl_table::TABLE_NAME,
            key.as_slice(),
            value.as_slice(),
        ) {
            Err(e) => {
                match e {
                    Error::StorageError { message } => Err(Error::StorageError { message }),
                    _ => Err(
                        Error::StorageError {
                            message: String::from_str("catalog sub-tree is missing"),
                        },
                    ),
                }
            },
            Ok(_) => Ok(TupleStream::new(Vec::new())),
        }
    }
}

} // verus!
