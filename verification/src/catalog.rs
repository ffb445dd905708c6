//! The catalog: the registry of table descriptors.

pub mod error;
pub mod schema;
pub mod vinyl_table;

use crate::catalog::error::{CatalogError, CatalogErrorV};
use crate::catalog::schema::{schema_wf, ColumnV, Schema};
use crate::text::str_eq;
use vstd::prelude::*;

verus! {

/// A table descriptor: name, schema, and primary-key column index.
#[derive(Debug)]
pub struct Table {
    name: String,
    /// The schema of this table.
    schema: Schema,
    /// Index of the column that is the primary key.
    pk: usize,
}

/// The mathematical value of a [`Table`].
pub struct TableV {
    pub name: Seq<char>,
    pub schema: Seq<ColumnV>,
    pub pk: int,
}

impl View for Table {
    type V = TableV;

    closed spec fn view(&self) -> TableV {
        TableV { name: self.name@, schema: self.schema@, pk: self.pk as int }
    }
}

impl DeepView for Table {
    type V = TableV;

    open spec fn deep_view(&self) -> TableV {
        self.view()
    }
}

impl Clone for Table {
    fn clone(&self) -> (r: Self)
        ensures
            r@ == self@,
    {
        Table { name: self.name.clone(), schema: self.schema.clone(), pk: self.pk }
    }
}

/// The primary-key index is in range and the schema is well formed.
pub open spec fn table_wf(t: TableV) -> bool {
    &&& schema_wf(t.schema)
    &&& 0 <= t.pk < t.schema.len()
}

impl Table {
    /// Create a new table descriptor.
    pub fn new(name: String, schema: Schema, pk: usize) -> (r: Self)
        ensures
            r@ == (TableV { name: name@, schema: schema@, pk: pk as int }),
    {
        Self { name, schema, pk }
    }

    /// The table's name.
    pub fn name(&self) -> (r: &str)
        ensures
            r@ == self@.name,
    {
        self.name.as_str()
    }

    /// The table's schema.
    pub fn schema(&self) -> (r: &Schema)
        ensures
            r@ == self@.schema,
    {
        &self.schema
    }

    /// The index of the primary-key column.
    pub fn pk(&self) -> (r: usize)
        ensures
            r == self@.pk,
    {
        self.pk
    }

    /// How many columns the table has.
    pub fn n_columns(&self) -> (r: usize)
        ensures
            r == self@.schema.len(),
    {
        self.schema.n_columns()
    }
}

/// Index of the first table named `name`, or `-1` when there is none.
pub open spec fn spec_table_index_of(s: Seq<TableV>, name: Seq<char>) -> int
    decreases s.len(),
{
    if s.len() == 0 {
        -1
    } else if s[0].name == name {
        0
    } else {
        let r = spec_table_index_of(s.drop_first(), name);
        if r == -1 {
            -1
        } else {
            r + 1
        }
    }
}

/// Whether some table is named `name`.
pub open spec fn catalog_contains(s: Seq<TableV>, name: Seq<char>) -> bool {
    spec_table_index_of(s, name) >= 0
}

/// `spec_table_index_of` returns the first matching position, or `-1` when
/// no table matches.
pub proof fn lemma_table_index_of(s: Seq<TableV>, name: Seq<char>)
    ensures
        -1 <= spec_table_index_of(s, name) < s.len(),
        spec_table_index_of(s, name) == -1 ==> forall|i: int| 0 <= i < s.len() ==> s[i].name != name,
        spec_table_index_of(s, name) >= 0 ==> s[spec_table_index_of(s, name)].name == name,
        spec_table_index_of(s, name) >= 0 ==> forall|i: int|
            0 <= i < spec_table_index_of(s, name) ==> s[i].name != name,
    decreases s.len(),
{
    if s.len() > 0 && s[0].name != name {
        lemma_table_index_of(s.drop_first(), name);
        let d = s.drop_first();
        assert forall|i: int| 0 <= i < s.len() && s[i].name == name implies spec_table_index_of(
            s,
            name,
        ) >= 0 by {
            if i > 0 {
                assert(d[i - 1].name == name);
            }
        }
        let r = spec_table_index_of(s, name);
        if r >= 1 {
            assert(d[r - 1] == s[r]);
            assert forall|i: int| 0 <= i < r implies s[i].name != name by {
                if i > 0 {
                    assert(d[i - 1] == s[i]);
                }
            }
        }
    }
}

/// The catalog: an insertion-ordered registry of table descriptors with
/// pairwise distinct names.
#[derive(Debug)]
pub struct Catalog {
    tables: Vec<Table>,
}

impl View for Catalog {
    type V = Seq<TableV>;

    closed spec fn view(&self) -> Seq<TableV> {
        self.tables.deep_view()
    }
}

impl Catalog {
    /// Table names are pairwise distinct and every descriptor is well formed.
    pub open spec fn wf(&self) -> bool {
        &&& forall|i: int, j: int| 0 <= i < j < self@.len() ==> self@[i].name != self@[j].name
        &&& forall|i: int| 0 <= i < self@.len() ==> table_wf(#[trigger] self@[i])
    }

    /// Create an empty catalog.
    pub fn new() -> (r: Self)
        ensures
            r@ == Seq::<TableV>::empty(),
            r.wf(),
    {
        Self { tables: Vec::new() }
    }

    /// Register a table at the end of the catalog; *table-exists* if the
    /// name is already registered, leaving the catalog unchanged.
    pub fn add_table(&mut self, table: Table) -> (r: Result<(), CatalogError>)
        requires
            old(self).wf(),
            table_wf(table@),
        ensures
            final(self).wf(),
            match r {
                Ok(()) => !catalog_contains(old(self)@, table@.name) && final(self)@ == old(
                    self,
                )@.push(table@),
                Err(e) => catalog_contains(old(self)@, table@.name) && *final (self) == *old(self)
                    && e@ == (CatalogErrorV::TableExists { name: table@.name }),
            },
    {
        proof {
            lemma_table_index_of(self@, table@.name);
        }
        match self.find_table(table.name.as_str()) {
            Some(_) => Err(CatalogError::TableExists { name: table.name }),
            None => {
                let ghost tv = table@;
                self.tables.push(table);
                proof {
                    assert(self@ =~= old(self)@.push(tv));
                    assert forall|i: int, j: int|
                        0 <= i < j < self@.len() implies self@[i].name != self@[j].name by {
                        if j == self@.len() - 1 {
                            assert(old(self)@[i].name != tv.name);
                        }
                    }
                }
                Ok(())
            },
        }
    }

    /// Index of the first table named `name`, or `None`.
    fn find_table(&self, name: &str) -> (r: Option<usize>)
        ensures
            match r {
                Some(i) => spec_table_index_of(self@, name@) == i,
                None => spec_table_index_of(self@, name@) == -1,
            },
    {
        proof {
            lemma_table_index_of(self@, name@);
        }
        let n = self.tables.len();
        let mut i: usize = 0;
        while i < n
            invariant
                n == self.tables.len(),
                0 <= i <= n,
                forall|j: int| 0 <= j < i ==> self@[j].name != name@,
                -1 <= spec_table_index_of(self@, name@) < n,
                spec_table_index_of(self@, name@) >= 0 ==> self@[spec_table_index_of(
                    self@,
                    name@,
                )].name == name@,
                spec_table_index_of(self@, name@) == -1 ==> forall|j: int|
                    0 <= j < n ==> self@[j].name != name@,
                spec_table_index_of(self@, name@) >= 0 ==> forall|j: int|
                    0 <= j < spec_table_index_of(self@, name@) ==> self@[j].name != name@,
            decreases n - i,
        {
            if str_eq(self.tables[i].name.as_str(), name) {
                proof {
                    let cs = self@;
                    let r = spec_table_index_of(cs, name@);
                    assert(cs[i as int].name == name@);
                    if r == -1 {
                        assert(cs[i as int].name != name@);
                    } else if r < i as int {
                        assert(cs[r].name == name@);
                        assert(cs[r].name != name@);
                    } else if r > i as int {
                        assert(cs[i as int].name != name@);
                    }
                }
                return Some(i);
            }
            i = i + 1;
        }
        None
    }

    /// The registered tables, in insertion order.
    pub fn tables(&self) -> (r: &Vec<Table>)
        ensures
            r.deep_view() == self@,
    {
        &self.tables
    }

    /// Look a table up by name, or *table-missing*.
    pub fn get_table(&self, name: &str) -> (r: Result<&Table, CatalogError>)
        ensures
            match r {
                Ok(t) => catalog_contains(self@, name@) && t@ == self@[spec_table_index_of(
                    self@,
                    name@,
                )],
                Err(e) => !catalog_contains(self@, name@) && e@
                    == (CatalogErrorV::TableDoesNotExist { name: name@ }),
            },
    {
        proof {
            lemma_table_index_of(self@, name@);
        }
        match self.find_table(name) {
            Some(i) => Ok(&self.tables[i]),
            None => Err(CatalogError::TableDoesNotExist { name: name.to_owned() }),
        }
    }

    /// Whether a table named `name` is registered.
    pub fn contains_table(&self, name: &str) -> (r: bool)
        ensures
            r == catalog_contains(self@, name@),
    {
        match self.find_table(name) {
            Some(_) => true,
            None => false,
        }
    }
}

} // verus!
