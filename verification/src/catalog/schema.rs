//! Schemas: ordered column lists with unique names.
//!
//! A schema maps column names to datatypes.  Insertion order is preserved and
//! observable: it defines each column's position within a row.

use crate::catalog::error::{CatalogError, CatalogErrorV};
use crate::data::types::DataType;
use crate::text::str_eq;
use vstd::prelude::*;

verus! {

/// One named, typed column.
#[derive(Debug)]
pub struct Column {
    pub name: String,
    pub datatype: DataType,
}

/// The mathematical value of a [`Column`].
pub struct ColumnV {
    pub name: Seq<char>,
    pub datatype: DataType,
}

impl View for Column {
    type V = ColumnV;

    open spec fn view(&self) -> ColumnV {
        ColumnV { name: self.name@, datatype: self.datatype }
    }
}

impl DeepView for Column {
    type V = ColumnV;

    open spec fn deep_view(&self) -> ColumnV {
        self.view()
    }
}

impl Clone for Column {
    fn clone(&self) -> (r: Self)
        ensures
            r@ == self@,
    {
        Column { name: self.name.clone(), datatype: self.datatype }
    }
}

/// Column names are pairwise distinct.
pub open spec fn schema_wf(s: Seq<ColumnV>) -> bool {
    forall|i: int, j: int| 0 <= i < j < s.len() ==> s[i].name != s[j].name
}

/// Index of the first column named `name`, or `-1` when there is none.
pub open spec fn spec_index_of(s: Seq<ColumnV>, name: Seq<char>) -> int
    decreases s.len(),
{
    if s.len() == 0 {
        -1
    } else if s[0].name == name {
        0
    } else {
        let r = spec_index_of(s.drop_first(), name);
        if r == -1 {
            -1
        } else {
            r + 1
        }
    }
}

/// Whether some column is named `name`.
pub open spec fn schema_contains(s: Seq<ColumnV>, name: Seq<char>) -> bool {
    spec_index_of(s, name) >= 0
}

/// `spec_index_of` returns the first matching position, or `-1` when no
/// column matches.
pub proof fn lemma_index_of(s: Seq<ColumnV>, name: Seq<char>)
    ensures
        -1 <= spec_index_of(s, name) < s.len(),
        spec_index_of(s, name) == -1 ==> forall|i: int| 0 <= i < s.len() ==> s[i].name != name,
        spec_index_of(s, name) >= 0 ==> s[spec_index_of(s, name)].name == name,
        spec_index_of(s, name) >= 0 ==> forall|i: int|
            0 <= i < spec_index_of(s, name) ==> s[i].name != name,
    decreases s.len(),
{
    if s.len() > 0 && s[0].name != name {
        lemma_index_of(s.drop_first(), name);
        let d = s.drop_first();
        assert forall|i: int| 0 <= i < s.len() && s[i].name == name implies spec_index_of(s, name)
            >= 0 by {
            if i > 0 {
                assert(d[i - 1].name == name);
            }
        }
        let r = spec_index_of(s, name);
        if r >= 1 {
            assert(d[r - 1] == s[r]);
            assert forall|i: int| 0 <= i < r implies s[i].name != name by {
                if i > 0 {
                    assert(d[i - 1] == s[i]);
                }
            }
        }
    }
}

/// Insert a column into a column list with map semantics: a new name goes to
/// the end, a present name keeps its position and takes the new datatype.
pub open spec fn spec_insert_column(s: Seq<ColumnV>, name: Seq<char>, dt: DataType) -> Seq<
    ColumnV,
> {
    let i = spec_index_of(s, name);
    if i == -1 {
        s.push(ColumnV { name, datatype: dt })
    } else {
        s.update(i, ColumnV { name, datatype: dt })
    }
}

/// Collect name/datatype pairs into a column list, later pairs inserted
/// after (or over) earlier ones.
pub open spec fn spec_collect_columns(pairs: Seq<(Seq<char>, DataType)>) -> Seq<ColumnV>
    decreases pairs.len(),
{
    if pairs.len() == 0 {
        Seq::empty()
    } else {
        spec_insert_column(
            spec_collect_columns(pairs.drop_last()),
            pairs.last().0,
            pairs.last().1,
        )
    }
}

/// Map-style insertion keeps names pairwise distinct.
proof fn lemma_insert_column_wf(s: Seq<ColumnV>, name: Seq<char>, dt: DataType)
    requires
        schema_wf(s),
    ensures
        schema_wf(spec_insert_column(s, name, dt)),
{
    lemma_index_of(s, name);
}

/// Collected column lists are well formed.
pub proof fn lemma_collect_columns_wf(pairs: Seq<(Seq<char>, DataType)>)
    ensures
        schema_wf(spec_collect_columns(pairs)),
    decreases pairs.len(),
{
    if pairs.len() > 0 {
        lemma_collect_columns_wf(pairs.drop_last());
        lemma_insert_column_wf(
            spec_collect_columns(pairs.drop_last()),
            pairs.last().0,
            pairs.last().1,
        );
    }
}

/// Build a schema from name/datatype pairs left to right, rejecting a
/// repeated name with the error that names the first repeat.
pub open spec fn spec_schema_of(fields: Seq<(Seq<char>, DataType)>) -> Result<
    Seq<ColumnV>,
    CatalogErrorV,
>
    decreases fields.len(),
{
    if fields.len() == 0 {
        Ok(Seq::empty())
    } else {
        match spec_schema_of(fields.drop_last()) {
            Err(e) => Err(e),
            Ok(cols) => if schema_contains(cols, fields.last().0) {
                Err(CatalogErrorV::ColumnExists { name: fields.last().0 })
            } else {
                Ok(cols.push(ColumnV { name: fields.last().0, datatype: fields.last().1 }))
            },
        }
    }
}

/// When every name is fresh, `spec_schema_of` returns the pairs as columns,
/// in order and pairwise distinct; when it fails, some name repeats.
pub proof fn lemma_schema_of(fields: Seq<(Seq<char>, DataType)>)
    ensures
        match spec_schema_of(fields) {
            Ok(cols) => {
                &&& cols == Seq::new(
                    fields.len(),
                    |i: int| ColumnV { name: fields[i].0, datatype: fields[i].1 },
                )
                &&& schema_wf(cols)
                &&& forall|i: int, j: int|
                    0 <= i < j < fields.len() ==> fields[i].0 != fields[j].0
            },
            Err(e) => exists|i: int, j: int|
                0 <= i < j < fields.len() && fields[i].0 == fields[j].0,
        },
    decreases fields.len(),
{
    if fields.len() > 0 {
        let pre = fields.drop_last();
        lemma_schema_of(pre);
        assert(forall|i: int| 0 <= i < pre.len() ==> pre[i] == fields[i]);
        match spec_schema_of(pre) {
            Err(_) => {
                let (i, j) = choose|i: int, j: int|
                    0 <= i < j < pre.len() && pre[i].0 == pre[j].0;
                assert(0 <= i < j < fields.len() && fields[i].0 == fields[j].0);
            },
            Ok(cols) => {
                lemma_index_of(cols, fields.last().0);
                if schema_contains(cols, fields.last().0) {
                    let i = spec_index_of(cols, fields.last().0);
                    assert(cols[i].name == fields[i].0);
                    assert(fields[i].0 == fields[fields.len() - 1].0);
                } else {
                    let cols2 = cols.push(
                        ColumnV { name: fields.last().0, datatype: fields.last().1 },
                    );
                    assert(cols2 =~= Seq::new(
                        fields.len(),
                        |i: int| ColumnV { name: fields[i].0, datatype: fields[i].1 },
                    ));
                    assert forall|i: int, j: int|
                        0 <= i < j < fields.len() implies fields[i].0 != fields[j].0 by {
                        if j == fields.len() - 1 {
                            assert(cols[i].name == fields[i].0);
                        }
                    }
                }
            },
        }
    }
}

/// An error on a prefix of the pairs is the error on all of them.
pub proof fn lemma_schema_of_prefix_err(fields: Seq<(Seq<char>, DataType)>, m: int)
    requires
        0 <= m <= fields.len(),
        spec_schema_of(fields.take(m)) is Err,
    ensures
        spec_schema_of(fields) == spec_schema_of(fields.take(m)),
    decreases fields.len() - m,
{
    if m < fields.len() {
        assert(fields.take(m + 1).drop_last() =~= fields.take(m));
        lemma_schema_of_prefix_err(fields, m + 1);
    } else {
        assert(fields.take(m) =~= fields);
    }
}

/// The names of a column list, in order.
pub open spec fn spec_column_names(s: Seq<ColumnV>) -> Seq<Seq<char>> {
    Seq::new(s.len(), |i: int| s[i].name)
}

/// The datatypes of a column list, in order.
pub open spec fn spec_column_datatypes(s: Seq<ColumnV>) -> Seq<DataType> {
    Seq::new(s.len(), |i: int| s[i].datatype)
}

/// Describes the metadata of an ordered sequence of named, typed columns.
#[derive(Debug)]
pub struct Schema {
    columns: Vec<Column>,
}

impl View for Schema {
    type V = Seq<ColumnV>;

    closed spec fn view(&self) -> Seq<ColumnV> {
        self.columns.deep_view()
    }
}

impl DeepView for Schema {
    type V = Seq<ColumnV>;

    open spec fn deep_view(&self) -> Seq<ColumnV> {
        self.view()
    }
}

/// Index of the first column of `columns` named `name`, or `None`.
fn find_column(columns: &Vec<Column>, name: &str) -> (r: Option<usize>)
    ensures
        match r {
            Some(i) => spec_index_of(columns.deep_view(), name@) == i,
            None => spec_index_of(columns.deep_view(), name@) == -1,
        },
{
    proof {
        lemma_index_of(columns.deep_view(), name@);
    }
    let n = columns.len();
    let mut i: usize = 0;
    while i < n
        invariant
            n == columns.len(),
            0 <= i <= n,
            forall|j: int| 0 <= j < i ==> columns.deep_view()[j].name != name@,
            -1 <= spec_index_of(columns.deep_view(), name@) < n,
            spec_index_of(columns.deep_view(), name@) >= 0 ==> columns.deep_view()[spec_index_of(
                columns.deep_view(),
                name@,
            )].name == name@,
            spec_index_of(columns.deep_view(), name@) == -1 ==> forall|j: int|
                0 <= j < n ==> columns.deep_view()[j].name != name@,
            spec_index_of(columns.deep_view(), name@) >= 0 ==> forall|j: int|
                0 <= j < spec_index_of(columns.deep_view(), name@) ==> columns.deep_view()[j].name
                    != name@,
        decreases n - i,
    {
        if str_eq(columns[i].name.as_str(), name) {
            proof {
                let cs = columns.deep_view();
                let r = spec_index_of(cs, name@);
                assert(cs[i as int].name == name@);
                if r == -1 {
                    assert(cs[i as int].name != name@);
                } else if r < i as int {
                    assert(cs[r].name == name@);
                    assert(cs[r].name != name@);
                } else if r > i as int {
                    assert(cs[i as int].name != name@);
                }
            }
            return Some(i);
        }
        i = i + 1;
    }
    None
}

impl Schema {
    /// Column names are pairwise distinct.
    pub open spec fn wf(&self) -> bool {
        schema_wf(self@)
    }

    /// Create a schema from name/datatype pairs with map semantics: a
    /// repeated name keeps its first position and takes the later datatype.
    pub fn new(fields: Vec<(String, DataType)>) -> (r: Schema)
        ensures
            r@ == spec_collect_columns(fields.deep_view()),
            r.wf(),
    {
        proof {
            lemma_collect_columns_wf(fields.deep_view());
        }
        let n = fields.len();
        let mut columns: Vec<Column> = Vec::new();
        let mut k: usize = 0;
        for k in 0..n
            invariant
                n == fields.len(),
                columns.deep_view() == spec_collect_columns(fields.deep_view().take(k as int)),
        {
            assert(fields.deep_view().take(k + 1).drop_last() =~= fields.deep_view().take(
                k as int,
            ));
            let (name, dt) = (fields[k].0.clone(), fields[k].1);
            match find_column(&columns, name.as_str()) {
                None => {
                    columns.push(Column { name, datatype: dt });
                },
                Some(i) => {
                    proof {
                        lemma_index_of(columns.deep_view(), name@);
                    }
                    columns.remove(i);
                    columns.insert(i, Column { name, datatype: dt });
                    assert(columns.deep_view() =~= spec_collect_columns(
                        fields.deep_view().take(k + 1),
                    ));
                },
            }
        }
        assert(fields.deep_view().take(n as int) =~= fields.deep_view());
        Schema { columns }
    }

    /// Create a schema, rejecting any repeated column name with the error
    /// that names the first repeat.
    pub fn new_with_duplicate_check(fields: Vec<(String, DataType)>) -> (r: Result<
        Schema,
        CatalogError,
    >)
        ensures
            match r {
                Ok(s) => spec_schema_of(fields.deep_view()) == Ok::<Seq<ColumnV>, CatalogErrorV>(
                    s@,
                ) && s.wf(),
                Err(e) => spec_schema_of(fields.deep_view()) == Err::<
                    Seq<ColumnV>,
                    CatalogErrorV,
                >(e@),
            },
    {
        let ghost fv = fields.deep_view();
        let n = fields.len();
        let mut columns: Vec<Column> = Vec::new();
        proof {
            assert(fv.take(0) =~= Seq::<(Seq<char>, DataType)>::empty());
            assert(columns.deep_view() =~= Seq::<ColumnV>::empty());
        }
        for k in 0..n
            invariant
                fv == fields.deep_view(),
                n == fields.len(),
                n == fv.len(),
                spec_schema_of(fv.take(k as int)) == Ok::<Seq<ColumnV>, CatalogErrorV>(
                    columns.deep_view(),
                ),
        {
            let (name, dt) = (fields[k].0.clone(), fields[k].1);
            proof {
                assert(name@ == fv[k as int].0);
                assert(dt == fv[k as int].1);
                assert(fv.take(k + 1).drop_last() =~= fv.take(k as int));
                assert(fv.take(k + 1).last() == fv[k as int]);
            }
            let ghost pre = columns.deep_view();
            match find_column(&columns, name.as_str()) {
                None => {
                    proof {
                        lemma_index_of(pre, name@);
                        assert(!schema_contains(pre, fv[k as int].0));
                        assert(columns.deep_view().len() == columns@.len());
                    }
                    let col = Column { name, datatype: dt };
                    let ghost cv = col@;
                    let ghost prev = columns@;
                    columns.push(col);
                    proof {
                        assert(columns@.len() == prev.len() + 1);
                        assert(columns@[prev.len() as int].deep_view() == cv);
                        assert(forall|j: int| 0 <= j < prev.len() ==> columns@[j] == prev[j]);
                        assert forall|j: int|
                            0 <= j < prev.len() implies columns@[j].deep_view() == pre[j] by {
                            assert(pre[j] == prev[j].deep_view());
                        }
                        assert(columns.deep_view() =~= pre.push(cv));
                        assert(spec_schema_of(fv.take(k + 1)) == Ok::<Seq<ColumnV>, CatalogErrorV>(
                            columns.deep_view(),
                        ));
                    }
                },
                Some(_) => {
                    proof {
                        lemma_index_of(pre, name@);
                        assert(schema_contains(pre, fv[k as int].0));
                        assert(spec_schema_of(fv.take(k + 1)) == Err::<
                            Seq<ColumnV>,
                            CatalogErrorV,
                        >(CatalogErrorV::ColumnExists { name: fv[k as int].0 }));
                        lemma_schema_of_prefix_err(fv, k + 1);
                    }
                    return Err(CatalogError::ColumnExists { name });
                },
            }
        }
        proof {
            assert(fv.take(n as int) =~= fv);
            lemma_schema_of(fv);
        }
        Ok(Schema { columns })
    }

    /// The empty schema.
    pub fn empty() -> (r: Schema)
        ensures
            r@ == Seq::<ColumnV>::empty(),
            r.wf(),
    {
        Schema { columns: Vec::new() }
    }

    /// The column names, in schema order.
    pub fn column_names(&self) -> (r: Vec<String>)
        ensures
            r.deep_view() == spec_column_names(self@),
    {
        let n = self.columns.len();
        let mut names: Vec<String> = Vec::new();
        for i in 0..n
            invariant
                n == self.columns.len(),
                names.deep_view() == spec_column_names(self@).take(i as int),
        {
            proof {
                assert(self@.len() == n);
                assert(names.deep_view().len() == i);
                assert(names@.len() == i);
            }
            let nm = self.columns[i].name.clone();
            let ghost prev = names@;
            names.push(nm);
            proof {
                assert(names@.len() == i + 1);
                assert(forall|j: int| 0 <= j < i ==> names@[j] == prev[j]);
            }
            assert(names.deep_view() =~= spec_column_names(self@).take(i + 1));
        }
        assert(spec_column_names(self@).take(n as int) =~= spec_column_names(self@));
        names
    }

    /// The column datatypes, in schema order.
    pub fn column_datatypes(&self) -> (r: Vec<DataType>)
        ensures
            r@ == spec_column_datatypes(self@),
    {
        let n = self.columns.len();
        let mut dts: Vec<DataType> = Vec::new();
        for i in 0..n
            invariant
                n == self.columns.len(),
                dts@ == spec_column_datatypes(self@).take(i as int),
        {
            dts.push(self.columns[i].datatype);
            assert(dts@ =~= spec_column_datatypes(self@).take(i + 1));
        }
        assert(spec_column_datatypes(self@).take(n as int) =~= spec_column_datatypes(self@));
        dts
    }

    /// The columns themselves, in schema order.
    pub fn columns(&self) -> (r: &Vec<Column>)
        ensures
            r.deep_view() == self@,
    {
        &self.columns
    }

    /// The datatype of the column named `name`, or *column-missing* with the
    /// schema's names as candidates.
    pub fn column_datatype(&self, name: &str) -> (r: Result<DataType, CatalogError>)
        ensures
            match r {
                Ok(dt) => schema_contains(self@, name@) && dt == self@[spec_index_of(
                    self@,
                    name@,
                )].datatype,
                Err(e) => !schema_contains(self@, name@) && e@ == (CatalogErrorV::ColumnDoesNotExist {
                    column: name@,
                    candidate: spec_column_names(self@),
                }),
            },
    {
        proof {
            lemma_index_of(self@, name@);
        }
        match find_column(&self.columns, name) {
            Some(i) => Ok(self.columns[i].datatype),
            None => Err(
                CatalogError::ColumnDoesNotExist {
                    column: name.to_owned(),
                    candidate: self.column_names(),
                },
            ),
        }
    }

    /// How many columns the schema has.
    pub fn n_columns(&self) -> (r: usize)
        ensures
            r == self@.len(),
    {
        self.columns.len()
    }

    /// The position of the column named `name`, or *column-missing* with the
    /// schema's names as candidates.
    pub fn index_of_column(&self, name: &str) -> (r: Result<usize, CatalogError>)
        ensures
            match r {
                Ok(i) => schema_contains(self@, name@) && i == spec_index_of(self@, name@),
                Err(e) => !schema_contains(self@, name@) && e@ == (CatalogErrorV::ColumnDoesNotExist {
                    column: name@,
                    candidate: spec_column_names(self@),
                }),
            },
    {
        proof {
            lemma_index_of(self@, name@);
        }
        match find_column(&self.columns, name) {
            Some(i) => Ok(i),
            None => Err(
                CatalogError::ColumnDoesNotExist {
                    column: name.to_owned(),
                    candidate: self.column_names(),
                },
            ),
        }
    }
}

impl Schema {
    /// Check that the column names are pairwise distinct.
    pub fn is_wf(&self) -> (r: bool)
        ensures
            r == self.wf(),
    {
        let n = self.columns.len();
        let mut i: usize = 0;
        while i < n
            invariant
                n == self.columns.len(),
                n == self@.len(),
                0 <= i <= n,
                forall|a: int, b: int| 0 <= a < b < self@.len() && a < i ==> self@[a].name != self@[b].name,
            decreases n - i,
        {
            let mut j = i + 1;
            while j < n
                invariant
                    n == self.columns.len(),
                    n == self@.len(),
                    i < j <= n,
                    forall|b: int| i < b < j ==> self@[i as int].name != self@[b].name,
                decreases n - j,
            {
                proof {
                    assert(self@[i as int] == self.columns@[i as int].deep_view());
                    assert(self@[j as int] == self.columns@[j as int].deep_view());
                }
                if str_eq(self.columns[i].name.as_str(), self.columns[j].name.as_str()) {
                    assert(self@[i as int].name == self@[j as int].name);
                    return false;
                }
                j = j + 1;
            }
            i = i + 1;
        }
        proof {
            assert(schema_wf(self@));
        }
        true
    }
}

impl Clone for Schema {
    fn clone(&self) -> (r: Self)
        ensures
            r@ == self@,
    {
        let n = self.columns.len();
        let mut columns: Vec<Column> = Vec::new();
        for i in 0..n
            invariant
                n == self.columns.len(),
                columns.deep_view() == self@.take(i as int),
        {
            let c = self.columns[i].clone();
            proof {
                assert(c@ == self@[i as int]);
            }
            let ghost pre = columns@;
            columns.push(c);
            proof {
                assert(columns@ == pre.push(c));
                assert(columns.deep_view() == Seq::new(
                    columns@.len(),
                    |j: int| columns@[j].deep_view(),
                ));
                assert(self@.len() == n);
                assert(self@.take(i as int).len() == i);
                assert(pre.len() == i);
                assert(columns@.len() == i + 1);
                assert(columns.deep_view().len() == i + 1);
                assert(columns.deep_view()[i as int] == c@);
                assert(forall|j: int| 0 <= j < i ==> columns@[j] == pre[j]);
            }
            assert(columns.deep_view() =~= self@.take(i + 1));
        }
        assert(self@.take(n as int) =~= self@);
        Schema { columns }
    }
}

} // verus!
