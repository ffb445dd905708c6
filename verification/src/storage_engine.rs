//! The storage engine: named ordered key/value sub-trees, one per table.
//!
//! The embedded store (sled) is an external collaborator.  The core relies
//! on it for named sub-trees with ordered byte-key access and models each
//! sub-tree by two names: the map it holds, and the key-ascending listing
//! its iterator produces.

pub mod page;

use crate::catalog::error::{CatalogError, CatalogErrorV};
use crate::config::Config;
use crate::error::{Error, ErrorV};
use crate::text::{lex_lt_bytes, str_eq};
use vstd::prelude::*;

verus! {

#[verifier::external_type_specification]
#[verifier::external_body]
pub struct ExDb(sled::Db);

#[verifier::external_type_specification]
#[verifier::external_body]
pub struct ExTree(sled::Tree);

/// The byte keys a sub-tree holds, mapped to their byte values.
pub uninterp spec fn tree_entries(t: sled::Tree) -> Map<Seq<u8>, Seq<u8>>;

/// The sub-tree's entries as its iterator lists them, in ascending key
/// order.
pub uninterp spec fn tree_sorted_entries(t: sled::Tree) -> Seq<(Seq<u8>, Seq<u8>)>;

/// The listing and the map of a sub-tree agree: strictly ascending keys,
/// every listed pair in the map, and every key of the map listed.
pub open spec fn tree_listing_wf(t: sled::Tree) -> bool {
    let l = tree_sorted_entries(t);
    &&& forall|i: int, j: int|
        0 <= i < j < l.len() ==> lex_lt_bytes(l[i].0, l[j].0)
    &&& forall|i: int|
        0 <= i < l.len() ==> tree_entries(t).contains_key(#[trigger] l[i].0) && tree_entries(t)[
            l[i].0
        ] == l[i].1
    &&& forall|k: Seq<u8>|
        tree_entries(t).dom().contains(k) ==> exists|i: int|
            0 <= i < l.len() && #[trigger] l[i].0 == k
}

/// Relies on `sled::open`: opens the store in a sub-directory of the data
/// directory, creating it if absent, and recovering whatever it holds.
#[verifier::external_body]
fn open_db(path: &str) -> (r: Result<sled::Db, Error>)
    ensures
        r is Ok || r matches Err(Error::StorageError { .. }),
{
    let dir = format!("{}/sled", path);
    sled::open(dir).map_err(|e| Error::StorageError { message: format!("{}", e) })
}

/// Relies on `sled::Db::open_tree`: returns a handle on the named sub-tree,
/// creating it if absent; a sub-tree's iterator always agrees with its
/// contents and lists keys in ascending order.
#[verifier::external_body]
fn db_open_tree(db: &sled::Db, name: &[u8]) -> (r: Result<sled::Tree, Error>)
    ensures
        match r {
            Ok(t) => tree_listing_wf(t),
            Err(e) => e is StorageError,
        },
{
    db.open_tree(name).map_err(|e| Error::StorageError { message: format!("{}", e) })
}

/// Relies on `sled::Db::tree_names`: the names of the sub-trees the store
/// holds.
#[verifier::external_body]
fn db_tree_names(db: &sled::Db) -> (r: Vec<Vec<u8>>)
{
    db.tree_names().into_iter().map(|n| n.to_vec()).collect()
}

/// Relies on `sled::Tree::insert`: maps the key to the value and returns
/// the value it displaced, if any.
#[verifier::external_body]
fn tree_insert(t: &mut sled::Tree, key: &[u8], value: &[u8]) -> (r: Result<Option<Vec<u8>>, Error>)
    ensures
        tree_listing_wf(*final (t)),
        match r {
            Ok(prev) => {
                &&& tree_entries(*final (t)) == tree_entries(*old(t)).insert(key@, value@)
                &&& match prev {
                    Some(p) => tree_entries(*old(t)).contains_key(key@) && p@ == tree_entries(
                        *old(t),
                    )[key@],
                    None => !tree_entries(*old(t)).contains_key(key@),
                }
            },
            Err(e) => e is StorageError,
        },
{
    match t.insert(key, value) {
        Ok(prev) => Ok(prev.map(|p| p.to_vec())),
        Err(e) => Err(Error::StorageError { message: format!("{}", e) }),
    }
}

/// Relies on `sled::Tree::iter`: lists the sub-tree's entries in ascending
/// key order.
#[verifier::external_body]
fn tree_scan(t: &sled::Tree) -> (r: Result<Vec<(Vec<u8>, Vec<u8>)>, Error>)
    ensures
        match r {
            Ok(pairs) => pairs.deep_view() == tree_sorted_entries(*t) && tree_listing_wf(*t),
            Err(e) => e is StorageError,
        },
{
    let mut out = Vec::new();
    for item in t.iter() {
        match item {
            Ok((k, v)) => out.push((k.to_vec(), v.to_vec())),
            Err(e) => {
                return Err(Error::StorageError { message: format!("{}", e) });
            },
        }
    }
    Ok(out)
}

/// Index of the first name equal to `name`, or `-1`.
pub open spec fn spec_name_index_of(names: Seq<Seq<char>>, name: Seq<char>) -> int
    decreases names.len(),
{
    if names.len() == 0 {
        -1
    } else if names[0] == name {
        0
    } else {
        let r = spec_name_index_of(names.drop_first(), name);
        if r == -1 {
            -1
        } else {
            r + 1
        }
    }
}

/// `spec_name_index_of` returns the first matching position, or `-1` when
/// no name matches.
pub proof fn lemma_name_index_of(names: Seq<Seq<char>>, name: Seq<char>)
    ensures
        -1 <= spec_name_index_of(names, name) < names.len(),
        spec_name_index_of(names, name) == -1 ==> forall|i: int|
            0 <= i < names.len() ==> names[i] != name,
        spec_name_index_of(names, name) >= 0 ==> names[spec_name_index_of(names, name)] == name,
        spec_name_index_of(names, name) >= 0 ==> forall|i: int|
            0 <= i < spec_name_index_of(names, name) ==> names[i] != name,
    decreases names.len(),
{
    if names.len() > 0 && names[0] != name {
        lemma_name_index_of(names.drop_first(), name);
        let d = names.drop_first();
        assert forall|i: int| 0 <= i < names.len() && names[i] == name implies spec_name_index_of(
            names,
            name,
        ) >= 0 by {
            if i > 0 {
                assert(d[i - 1] == name);
            }
        }
        let r = spec_name_index_of(names, name);
        if r >= 1 {
            assert(d[r - 1] == names[r]);
            assert forall|i: int| 0 <= i < r implies names[i] != name by {
                if i > 0 {
                    assert(d[i - 1] == names[i]);
                }
            }
        }
    }
}

/// The storage engine: the store handle and one sub-tree handle per name.
#[derive(Debug)]
pub struct StorageEngine {
    db: sled::Db,
    names: Vec<String>,
    trees: Vec<sled::Tree>,
}

impl StorageEngine {
    /// The sub-tree names, in the order their handles were restored.
    pub closed spec fn names(&self) -> Seq<Seq<char>> {
        self.names.deep_view()
    }

    /// The sub-tree handles, in the same order.
    pub closed spec fn trees(&self) -> Seq<sled::Tree> {
        self.trees@
    }

    /// One handle per name, names pairwise distinct, every listing well
    /// formed.
    pub open spec fn wf(&self) -> bool {
        &&& self.names().len() == self.trees().len()
        &&& forall|i: int, j: int|
            0 <= i < j < self.names().len() ==> self.names()[i] != self.names()[j]
        &&& forall|i: int|
            0 <= i < self.trees().len() ==> tree_listing_wf(#[trigger] self.trees()[i])
    }

    /// Whether a sub-tree named `name` is held.
    pub open spec fn has_tree(&self, name: Seq<char>) -> bool {
        spec_name_index_of(self.names(), name) >= 0
    }

    /// The handle of the sub-tree named `name`.
    pub open spec fn tree_of(&self, name: Seq<char>) -> sled::Tree {
        self.trees()[spec_name_index_of(self.names(), name)]
    }

    /// The entries of the sub-tree named `name`.
    pub open spec fn entries_of(&self, name: Seq<char>) -> Map<Seq<u8>, Seq<u8>> {
        tree_entries(self.tree_of(name))
    }

    /// Open the store under the configured data directory, restore a handle
    /// for every sub-tree it holds, and ensure the reserved catalog
    /// sub-tree exists.
    pub fn new(config: &Config) -> (r: Result<Self, Error>)
        ensures
            match r {
                Ok(engine) => engine.wf() && engine.has_tree(
                    crate::catalog::vinyl_table::TABLE_NAME@,
                ),
                Err(e) => e is StorageError,
            },
    {
        let db = match open_db(config.data_path.as_str()) {
            Err(e) => {
                return Err(e);
            },
            Ok(db) => db,
        };
        let vinyl_name: &str = crate::catalog::vinyl_table::TABLE_NAME;
        let vinyl = match db_open_tree(&db, vinyl_name.as_bytes()) {
            Err(e) => {
                return Err(e);
            },
            Ok(t) => t,
        };
        let raw_names = db_tree_names(&db);
        let mut engine = StorageEngine { db, names: Vec::new(), trees: Vec::new() };
        proof {
            assert(engine.names() =~= Seq::<Seq<char>>::empty());
        }
        let n = raw_names.len();
        let mut i: usize = 0;
        while i < n
            invariant
                n == raw_names.len(),
                0 <= i <= n,
                engine.wf(),
                tree_listing_wf(vinyl),
                vinyl_name@ == crate::catalog::vinyl_table::TABLE_NAME@,
            decreases n - i,
        {
            match crate::data::types::string_from_utf8(
                vstd::slice::slice_to_vec(raw_names[i].as_slice()),
            ) {
                None => {},
                Some(name) => {
                    if !engine.contains_name(name.as_str()) {
                        match db_open_tree(&engine.db, raw_names[i].as_slice()) {
                            Err(e) => {
                                return Err(e);
                            },
                            Ok(t) => {
                                engine.push_tree(name, t);
                            },
                        }
                    }
                },
            }
            i = i + 1;
        }
        if !engine.contains_name(vinyl_name) {
            let ghost pre = engine.names();
            engine.push_tree(vinyl_name.to_owned(), vinyl);
            proof {
                lemma_name_index_of(engine.names(), vinyl_name@);
                if spec_name_index_of(engine.names(), vinyl_name@) == -1 {
                    assert(engine.names()[pre.len() as int] == vinyl_name@);
                }
            }
        }
        Ok(engine)
    }

    /// Whether a handle named `name` is held.
    fn contains_name(&self, name: &str) -> (r: bool)
        ensures
            r == self.has_tree(name@),
    {
        proof {
            lemma_name_index_of(self.names(), name@);
        }
        let n = self.names.len();
        let mut i: usize = 0;
        while i < n
            invariant
                n == self.names.len(),
                n == self.names().len(),
                0 <= i <= n,
                forall|j: int| 0 <= j < i ==> self.names()[j] != name@,
                -1 <= spec_name_index_of(self.names(), name@) < n,
                spec_name_index_of(self.names(), name@) >= 0 ==> self.names()[spec_name_index_of(
                    self.names(),
                    name@,
                )] == name@,
                spec_name_index_of(self.names(), name@) == -1 ==> forall|j: int|
                    0 <= j < n ==> self.names()[j] != name@,
                spec_name_index_of(self.names(), name@) >= 0 ==> forall|j: int|
                    0 <= j < spec_name_index_of(self.names(), name@) ==> self.names()[j] != name@,
            decreases n - i,
        {
            proof {
                assert(self.names.deep_view()[i as int] == self.names@[i as int]@);
            }
            if str_eq(self.names[i].as_str(), name) {
                proof {
                    let cs = self.names();
                    let r = spec_name_index_of(cs, name@);
                    assert(cs[i as int] == name@);
                    if r == -1 {
                        assert(cs[i as int] != name@);
                    } else if r < i as int {
                        assert(cs[r] == name@);
                        assert(cs[r] != name@);
                    } else if r > i as int {
                        assert(cs[i as int] != name@);
                    }
                }
                return true;
            }
            i = i + 1;
        }
        false
    }

    /// Index of the handle named `name`.
    fn index_of_name(&self, name: &str) -> (r: Option<usize>)
        ensures
            match r {
                Some(i) => spec_name_index_of(self.names(), name@) == i,
                None => spec_name_index_of(self.names(), name@) == -1,
            },
    {
        proof {
            lemma_name_index_of(self.names(), name@);
        }
        let n = self.names.len();
        let mut i: usize = 0;
        while i < n
            invariant
                n == self.names.len(),
                n == self.names().len(),
                0 <= i <= n,
                forall|j: int| 0 <= j < i ==> self.names()[j] != name@,
                -1 <= spec_name_index_of(self.names(), name@) < n,
                spec_name_index_of(self.names(), name@) >= 0 ==> self.names()[spec_name_index_of(
                    self.names(),
                    name@,
                )] == name@,
                spec_name_index_of(self.names(), name@) == -1 ==> forall|j: int|
                    0 <= j < n ==> self.names()[j] != name@,
                spec_name_index_of(self.names(), name@) >= 0 ==> forall|j: int|
                    0 <= j < spec_name_index_of(self.names(), name@) ==> self.names()[j] != name@,
            decreases n - i,
        {
            proof {
                assert(self.names.deep_view()[i as int] == self.names@[i as int]@);
            }
            if str_eq(self.names[i].as_str(), name) {
                proof {
                    let cs = self.names();
                    let r = spec_name_index_of(cs, name@);
                    assert(cs[i as int] == name@);
                    if r == -1 {
                        assert(cs[i as int] != name@);
                    } else if r < i as int {
                        assert(cs[r] == name@);
                        assert(cs[r] != name@);
                    } else if r > i as int {
                        assert(cs[i as int] != name@);
                    }
                }
                return Some(i);
            }
            i = i + 1;
        }
        None
    }

    /// Append a named handle.
    fn push_tree(&mut self, name: String, t: sled::Tree)
        requires
            old(self).wf(),
            !old(self).has_tree(name@),
            tree_listing_wf(t),
        ensures
            final (self).wf(),
            final (self).names() == old(self).names().push(name@),
            final (self).trees() == old(self).trees().push(t),
    {
        proof {
            lemma_name_index_of(self.names(), name@);
            assert(self.names.deep_view().len() == self.names@.len());
        }
        let ghost prev = self.names@;
        self.names.push(name);
        self.trees.push(t);
        proof {
            assert(self.names@.len() == prev.len() + 1);
            assert(forall|j: int| 0 <= j < prev.len() ==> self.names@[j] == prev[j]);
            assert(self.names() =~= old(self).names().push(self.names@[prev.len() as int]@));
        }
    }

    /// Create (or reopen) the sub-tree for a new table.  A handle already
    /// held under that name is a fatal storage fault: the catalog was
    /// checked first.
    pub fn add_table(&mut self, name: String) -> (r: Result<(), Error>)
        requires
            old(self).wf(),
        ensures
            final (self).wf(),
            match r {
                Ok(()) => !old(self).has_tree(name@) && final (self).names() == old(
                    self,
                ).names().push(name@) && final (self).has_tree(name@) && forall|n: Seq<char>|
                    old(self).has_tree(n) ==> final (self).has_tree(n) && final (self).tree_of(n)
                        == old(self).tree_of(n),
                Err(e) => (e is StorageError) && final (self).names() == old(self).names() && final (
                self).trees() == old(self).trees(),
            },
    {
        if self.contains_name(name.as_str()) {
            return Err(
                Error::StorageError {
                    message: String::from_str("sub-tree already exists for a new table"),
                },
            );
        }
        let name_bytes = name.as_str().as_bytes_vec();
        let t = match db_open_tree(&self.db, name_bytes.as_slice()) {
            Err(e) => {
                return Err(e);
            },
            Ok(t) => t,
        };
        let ghost pre_names = self.names();
        let ghost pre_trees = self.trees();
        let ghost nv = name@;
        self.push_tree(name, t);
        proof {
            lemma_name_index_of(self.names(), nv);
            if spec_name_index_of(self.names(), nv) == -1 {
                assert(self.names()[pre_names.len() as int] == nv);
            }
            assert forall|n: Seq<char>| spec_name_index_of(pre_names, n) >= 0 implies {
                &&& spec_name_index_of(final (self).names(), n) >= 0
                &&& final (self).trees()[spec_name_index_of(final (self).names(), n)]
                    == pre_trees[spec_name_index_of(pre_names, n)]
            } by {
                lemma_name_index_of(pre_names, n);
                lemma_name_index_of(final (self).names(), n);
                let i = spec_name_index_of(pre_names, n);
                let j = spec_name_index_of(final (self).names(), n);
                assert(final (self).names()[i] == n);
                assert(j >= 0);
                if j < i {
                    assert(pre_names[j] == n);
                    assert(pre_names[j] != n);
                }
                if j > i {
                    assert(final (self).names()[i] != n);
                }
            }
        }
        Ok(())
    }

    /// The handle of the named sub-tree, or *table-missing*.
    pub fn get_tree_of_table(&self, name: &str) -> (r: Result<&sled::Tree, Error>)
        requires
            self.wf(),
        ensures
            match r {
                Ok(t) => self.has_tree(name@) && *t == self.tree_of(name@),
                Err(e) => !self.has_tree(name@) && e@ == ErrorV::CatalogError(
                    CatalogErrorV::TableDoesNotExist { name: name@ },
                ),
            },
    {
        match self.index_of_name(name) {
            None => Err(
                Error::CatalogError(CatalogError::TableDoesNotExist { name: name.to_owned() }),
            ),
            Some(i) => {
                proof {
                    lemma_name_index_of(self.names(), name@);
                }
                Ok(&self.trees[i])
            },
        }
    }

    /// Whether the named sub-tree is held.
    pub fn contains_table(&self, name: &str) -> (r: bool)
        ensures
            r == self.has_tree(name@),
    {
        self.contains_name(name)
    }

    /// List the named sub-tree's entries in ascending key order, or
    /// *table-missing*.
    pub fn scan_table(&self, name: &str) -> (r: Result<Vec<(Vec<u8>, Vec<u8>)>, Error>)
        requires
            self.wf(),
        ensures
            match r {
                Ok(pairs) => self.has_tree(name@) && pairs.deep_view() == tree_sorted_entries(
                    self.tree_of(name@),
                ) && tree_listing_wf(self.tree_of(name@)),
                Err(e) => (e is StorageError) || (!self.has_tree(name@) && e@
                    == ErrorV::CatalogError(CatalogErrorV::TableDoesNotExist { name: name@ })),
            },
    {
        match self.index_of_name(name) {
            None => Err(
                Error::CatalogError(CatalogError::TableDoesNotExist { name: name.to_owned() }),
            ),
            Some(i) => {
                proof {
                    lemma_name_index_of(self.names(), name@);
                }
                tree_scan(&self.trees[i])
            },
        }
    }

    /// Map `key` to `value` in the named sub-tree, returning the value it
    /// displaced, if any; *table-missing* when the sub-tree is not held.
    pub fn insert_into(&mut self, name: &str, key: &[u8], value: &[u8]) -> (r: Result<
        Option<Vec<u8>>,
        Error,
    >)
        requires
            old(self).wf(),
        ensures
            final (self).wf(),
            final (self).names() == old(self).names(),
            forall|n: Seq<char>|
                final (self).has_tree(n) == old(self).has_tree(n),
            forall|n: Seq<char>|
                old(self).has_tree(n) && n != name@ ==> final (self).tree_of(n) == old(
                    self,
                ).tree_of(n),
            match r {
                Ok(prev) => {
                    &&& old(self).has_tree(name@)
                    &&& tree_entries(final (self).tree_of(name@)) == tree_entries(
                        old(self).tree_of(name@),
                    ).insert(key@, value@)
                    &&& match prev {
                        Some(p) => tree_entries(old(self).tree_of(name@)).contains_key(key@) && p@
                            == tree_entries(old(self).tree_of(name@))[key@],
                        None => !tree_entries(old(self).tree_of(name@)).contains_key(key@),
                    }
                },
                Err(e) => (e is StorageError) || (!old(self).has_tree(name@) && e@
                    == ErrorV::CatalogError(CatalogErrorV::TableDoesNotExist { name: name@ })
                    && *final (self) == *old(self)),
            },
    {
        let idx = match self.index_of_name(name) {
            None => {
                return Err(
                    Error::CatalogError(
                        CatalogError::TableDoesNotExist { name: name.to_owned() },
                    ),
                );
            },
            Some(i) => i,
        };
        proof {
            lemma_name_index_of(self.names(), name@);
        }
        let ghost pre_names = self.names();
        let ghost pre_trees = self.trees();
        let mut t = self.trees.remove(idx);
        let result = tree_insert(&mut t, key, value);
        self.trees.insert(idx, t);
        proof {
            assert(self.trees@.len() == pre_trees.len());
            assert(forall|j: int|
                0 <= j < pre_trees.len() && j != idx ==> self.trees@[j] == pre_trees[j]);
            assert forall|n: Seq<char>|
                spec_name_index_of(pre_names, n) >= 0 && n != name@ implies self.trees()[
                spec_name_index_of(pre_names, n)] == pre_trees[spec_name_index_of(
                pre_names,
                n,
            )] by {
                lemma_name_index_of(pre_names, n);
                let i = spec_name_index_of(pre_names, n);
                assert(pre_names[i] == n);
                if i == idx {
                    assert(pre_names[idx as int] == name@);
                }
            }
        }
        result
    }
}

} // verus!
