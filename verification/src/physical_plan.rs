//! The physical operator tree.
//!
//! One operator per logical variant, same tree shape.  Every operator
//! advertises an output schema, a short stable label for `EXPLAIN`, an
//! optional child for introspection, and `execute`, which produces a
//! one-shot cursor over its output tuples.

pub mod create_table;
pub mod describe_table;
pub mod explain;
pub mod filter;
pub mod insert;
pub mod limit;
pub mod one_row_placeholder;
pub mod projection;
pub mod show_tables;
pub mod table_scan;

use crate::catalog::schema::{schema_wf, ColumnV, Schema};
use crate::catalog::TableV;
use crate::ctx::Context;
use crate::data::tuple::{Tuple, TupleStream};
use crate::data::types::{DataType, DataVal};
use crate::error::{Error, ErrorV};
use crate::expr::ExprV;
use crate::physical_plan::create_table::CreateTableExec;
use crate::physical_plan::describe_table::{describe_rows, spec_describe_rows, DescribeTableExec};
use crate::physical_plan::explain::ExplainExec;
use crate::physical_plan::filter::{apply_filter, spec_filter_rows, FilterExec};
use crate::physical_plan::insert::InsertExec;
use crate::physical_plan::limit::{apply_limit, spec_limit_rows, LimitExec};
use crate::physical_plan::one_row_placeholder::OneRowPlaceholderExec;
use crate::physical_plan::projection::{apply_projection, spec_project_rows, ProjectionExec};
use crate::physical_plan::show_tables::{show_rows, spec_show_rows, ShowTablesExec};
use crate::physical_plan::table_scan::{scan_rows, spec_scan_rows, TableScanExec};
use crate::storage_engine::StorageEngine;
use vstd::prelude::*;
use vstd::string::*;

verus! {

/// A node of the physical plan.
#[derive(Debug)]
pub enum PhysicalPlan {
    CreateTable(CreateTableExec),
    DescribeTable(DescribeTableExec),
    Explain(ExplainExec),
    Filter(FilterExec),
    Insert(InsertExec),
    Limit(LimitExec),
    OneRowPlaceholder(OneRowPlaceholderExec),
    Projection(ProjectionExec),
    ShowTables(ShowTablesExec),
    TableScan(TableScanExec),
}

/// The mathematical value of a [`PhysicalPlan`].
pub enum PhysicalPlanV {
    CreateTable { name: Seq<char>, schema: Seq<ColumnV>, pk: int, sql: Seq<char> },
    DescribeTable { name: Seq<char> },
    Explain { plan: Box<PhysicalPlanV> },
    Filter { predicate: ExprV, input: Box<PhysicalPlanV> },
    Insert { table: Seq<char>, rows: Seq<Seq<DataVal>> },
    Limit { offset: Option<int>, limit: Option<int>, input: Box<PhysicalPlanV> },
    OneRowPlaceholder,
    Projection { expr: Seq<ExprV>, schema: Seq<ColumnV>, input: Box<PhysicalPlanV> },
    ShowTables,
    TableScan { table: Seq<char>, schema: Seq<ColumnV> },
}

/// The mathematical value of a physical plan tree.
pub open spec fn spec_pplan_view(p: PhysicalPlan) -> PhysicalPlanV
    decreases p,
{
    match p {
        PhysicalPlan::CreateTable(c) => PhysicalPlanV::CreateTable {
            name: c.name@,
            schema: c.schema@,
            pk: c.pk as int,
            sql: c.sql@,
        },
        PhysicalPlan::DescribeTable(d) => PhysicalPlanV::DescribeTable { name: d.name@ },
        PhysicalPlan::Explain(x) => PhysicalPlanV::Explain {
            plan: Box::new(spec_pplan_view(*x.plan)),
        },
        PhysicalPlan::Filter(f) => PhysicalPlanV::Filter {
            predicate: f.predicate@,
            input: Box::new(spec_pplan_view(*f.input)),
        },
        PhysicalPlan::Insert(i) => PhysicalPlanV::Insert {
            table: i.table@,
            rows: i.rows.deep_view(),
        },
        PhysicalPlan::Limit(l) => PhysicalPlanV::Limit {
            offset: match l.offset {
                Some(o) => Some(o as int),
                None => None,
            },
            limit: match l.limit {
                Some(m) => Some(m as int),
                None => None,
            },
            input: Box::new(spec_pplan_view(*l.input)),
        },
        PhysicalPlan::OneRowPlaceholder(_) => PhysicalPlanV::OneRowPlaceholder,
        PhysicalPlan::Projection(pr) => PhysicalPlanV::Projection {
            expr: pr.expr.deep_view(),
            schema: pr.schema@,
            input: Box::new(spec_pplan_view(*pr.input)),
        },
        PhysicalPlan::ShowTables(_) => PhysicalPlanV::ShowTables,
        PhysicalPlan::TableScan(t) => PhysicalPlanV::TableScan {
            table: t.table@,
            schema: t.schema@,
        },
    }
}

impl View for PhysicalPlan {
    type V = PhysicalPlanV;

    open spec fn view(&self) -> PhysicalPlanV {
        spec_pplan_view(*self)
    }
}

impl DeepView for PhysicalPlan {
    type V = PhysicalPlanV;

    open spec fn deep_view(&self) -> PhysicalPlanV {
        self.view()
    }
}

/// The output schema an operator advertises.
pub open spec fn spec_op_schema(p: PhysicalPlanV) -> Seq<ColumnV>
    decreases p,
{
    match p {
        PhysicalPlanV::CreateTable { .. } => Seq::empty(),
        PhysicalPlanV::DescribeTable { .. } => seq![
            ColumnV { name: "column_name"@, datatype: DataType::String },
            ColumnV { name: "column_type"@, datatype: DataType::String },
            ColumnV { name: "null"@, datatype: DataType::String },
            ColumnV { name: "key"@, datatype: DataType::String },
        ],
        PhysicalPlanV::Explain { .. } => seq![
            ColumnV { name: "Physical Plan"@, datatype: DataType::String },
        ],
        PhysicalPlanV::Filter { input, .. } => spec_op_schema(*input),
        PhysicalPlanV::Insert { .. } => Seq::empty(),
        PhysicalPlanV::Limit { input, .. } => spec_op_schema(*input),
        PhysicalPlanV::OneRowPlaceholder => Seq::empty(),
        PhysicalPlanV::Projection { schema, .. } => schema,
        PhysicalPlanV::ShowTables => seq![ColumnV { name: "name"@, datatype: DataType::String }],
        PhysicalPlanV::TableScan { schema, .. } => schema,
    }
}

/// The short stable label of an operator, used by `EXPLAIN`.
pub open spec fn spec_op_name(p: PhysicalPlanV) -> Seq<char> {
    match p {
        PhysicalPlanV::CreateTable { .. } => "CreateTableExec"@,
        PhysicalPlanV::DescribeTable { .. } => "DescribeTableExec"@,
        PhysicalPlanV::Explain { .. } => "ExplainExec"@,
        PhysicalPlanV::Filter { .. } => "FilterExec"@,
        PhysicalPlanV::Insert { .. } => "InsertExec"@,
        PhysicalPlanV::Limit { .. } => "LimitExec"@,
        PhysicalPlanV::OneRowPlaceholder => "OneRowPlaceholderExec"@,
        PhysicalPlanV::Projection { .. } => "ProjectionExec"@,
        PhysicalPlanV::ShowTables => "ShowTablesExec"@,
        PhysicalPlanV::TableScan { .. } => "TableScanExec"@,
    }
}

/// The operator's child, for `EXPLAIN` traversal; leaves have none.
pub open spec fn spec_op_child(p: PhysicalPlanV) -> Option<PhysicalPlanV> {
    match p {
        PhysicalPlanV::Explain { plan } => Some(*plan),
        PhysicalPlanV::Filter { input, .. } => Some(*input),
        PhysicalPlanV::Limit { input, .. } => Some(*input),
        PhysicalPlanV::Projection { input, .. } => Some(*input),
        _ => None,
    }
}

/// The labels of the operator chain starting at `p`, root first.
pub open spec fn spec_explain_chain(p: PhysicalPlanV) -> Seq<Seq<DataVal>>
    decreases p,
{
    seq![seq![DataVal::String(spec_op_name(p))]] + match p {
        PhysicalPlanV::Explain { plan } => spec_explain_chain(*plan),
        PhysicalPlanV::Filter { input, .. } => spec_explain_chain(*input),
        PhysicalPlanV::Limit { input, .. } => spec_explain_chain(*input),
        PhysicalPlanV::Projection { input, .. } => spec_explain_chain(*input),
        _ => Seq::empty(),
    }
}

/// The mutating operators stand only at the root of a plan.
pub open spec fn plan_readonly(p: PhysicalPlanV) -> bool
    decreases p,
{
    match p {
        PhysicalPlanV::CreateTable { .. } => false,
        PhysicalPlanV::Insert { .. } => false,
        PhysicalPlanV::Filter { input, .. } => plan_readonly(*input),
        PhysicalPlanV::Limit { input, .. } => plan_readonly(*input),
        PhysicalPlanV::Projection { input, .. } => plan_readonly(*input),
        _ => true,
    }
}

/// A plan the session may run: a create-table node carries a well-formed
/// schema with its primary key in range, and mutating operators stand only
/// at the root.
pub open spec fn plan_wf(p: PhysicalPlanV) -> bool {
    match p {
        PhysicalPlanV::CreateTable { schema, pk, .. } => schema_wf(schema) && 0 <= pk
            < schema.len(),
        PhysicalPlanV::Filter { input, .. } => plan_readonly(*input),
        PhysicalPlanV::Limit { input, .. } => plan_readonly(*input),
        PhysicalPlanV::Projection { input, .. } => plan_readonly(*input),
        _ => true,
    }
}

/// The rows a read-only operator produces over the given catalog and
/// storage.
pub open spec fn spec_rows(
    p: PhysicalPlanV,
    cat: Seq<TableV>,
    store: StorageEngine,
) -> Result<Seq<Seq<DataVal>>, ErrorV>
    decreases p,
{
    match p {
        PhysicalPlanV::OneRowPlaceholder => Ok(seq![Seq::<DataVal>::empty()]),
        PhysicalPlanV::ShowTables => Ok(spec_show_rows(cat)),
        PhysicalPlanV::DescribeTable { name } => spec_describe_rows(cat, name),
        PhysicalPlanV::TableScan { table, schema } => spec_scan_rows(store, table, schema),
        PhysicalPlanV::Filter { predicate, input } => match spec_rows(*input, cat, store) {
            Err(e) => Err(e),
            Ok(rows) => spec_filter_rows(predicate, spec_op_schema(*input), rows, 0),
        },
        PhysicalPlanV::Limit { offset, limit, input } => match spec_rows(*input, cat, store) {
            Err(e) => Err(e),
            Ok(rows) => Ok(spec_limit_rows(offset, limit, rows)),
        },
        PhysicalPlanV::Projection { expr, schema, input } => match spec_rows(*input, cat, store) {
            Err(e) => Err(e),
            Ok(rows) => spec_project_rows(expr, spec_op_schema(*input), rows, 0),
        },
        PhysicalPlanV::Explain { plan } => Ok(spec_explain_chain(*plan)),
        PhysicalPlanV::CreateTable { .. } => arbitrary(),
        PhysicalPlanV::Insert { .. } => arbitrary(),
    }
}

/// Everything `execute` guarantees, relating the session before and after
/// the run to the produced cursor.  A read-only plan leaves the session
/// untouched and, absent storage faults, produces exactly the rows
/// [`spec_rows`] describes; the create-table and insert roots mutate the
/// catalog and storage as stated.
pub open spec fn execute_post(
    p: PhysicalPlanV,
    oldc: Context,
    newc: Context,
    r: Result<TupleStream, Error>,
) -> bool {
    &&& newc.catalog.wf()
    &&& newc.storage.wf()
    &&& newc.config == oldc.config
    &&& forall|n: Seq<char>| oldc.storage.has_tree(n) ==> newc.storage.has_tree(n)
    &&& !(p is CreateTable) && !(p is Insert) ==> newc == oldc && (match r {
        Ok(s) => s.wf() && spec_rows(p, oldc.catalog@, oldc.storage) == Ok::<
            Seq<Seq<DataVal>>,
            ErrorV,
        >(s.remaining()),
        Err(e) => (e is StorageError) || spec_rows(p, oldc.catalog@, oldc.storage) == Err::<
            Seq<Seq<DataVal>>,
            ErrorV,
        >(e@),
    })
    &&& p is CreateTable ==> ({
        match r {
            Ok(s) => {
                &&& s.wf()
                &&& s.remaining() == Seq::<Seq<DataVal>>::empty()
                &&& !crate::catalog::catalog_contains(oldc.catalog@, p->CreateTable_name)
                &&& newc.catalog@ == oldc.catalog@.push(
                    TableV {
                        name: p->CreateTable_name,
                        schema: p->CreateTable_schema,
                        pk: p->CreateTable_pk,
                    },
                )
                &&& newc.storage.has_tree(p->CreateTable_name)
                &&& newc.storage.has_tree(crate::catalog::vinyl_table::TABLE_NAME@)
                &&& crate::storage_engine::tree_entries(
                    newc.storage.tree_of(crate::catalog::vinyl_table::TABLE_NAME@),
                ) == crate::storage_engine::tree_entries(
                    oldc.storage.tree_of(crate::catalog::vinyl_table::TABLE_NAME@),
                ).insert(
                    crate::data::types::spec_encode(DataVal::String(p->CreateTable_name)),
                    crate::data::tuple::spec_tuple_encode(
                        seq![
                            DataVal::String(p->CreateTable_name),
                            DataVal::String(p->CreateTable_sql),
                        ],
                    ),
                )
                &&& forall|n: Seq<char>| oldc.storage.has_tree(n) ==> newc.storage.has_tree(n)
                &&& forall|n: Seq<char>|
                    oldc.storage.has_tree(n) && n != crate::catalog::vinyl_table::TABLE_NAME@ && n
                        != p->CreateTable_name ==> newc.storage.tree_of(n) == oldc.storage.tree_of(
                        n,
                    )
            },
            Err(e) => (crate::catalog::catalog_contains(oldc.catalog@, p->CreateTable_name) && e@
                == ErrorV::CatalogError(
                crate::catalog::error::CatalogErrorV::TableExists { name: p->CreateTable_name },
            ) && newc == oldc) || ((e is StorageError) && newc.catalog@ == oldc.catalog@.push(
                TableV {
                    name: p->CreateTable_name,
                    schema: p->CreateTable_schema,
                    pk: p->CreateTable_pk,
                },
            )),
        }
    })
    &&& p is Insert ==> ({
        &&& newc.catalog == oldc.catalog
        &&& newc.storage.names() == oldc.storage.names()
        &&& forall|n: Seq<char>|
            oldc.storage.has_tree(n) && n != p->Insert_table ==> newc.storage.tree_of(n)
                == oldc.storage.tree_of(n)
        &&& match r {
            Ok(s) => {
                &&& s.wf()
                &&& s.remaining() == Seq::<Seq<DataVal>>::empty()
                &&& crate::catalog::catalog_contains(oldc.catalog@, p->Insert_table)
                &&& oldc.storage.has_tree(p->Insert_table)
                &&& ({
                    let pk = oldc.catalog@[crate::catalog::spec_table_index_of(
                        oldc.catalog@,
                        p->Insert_table,
                    )].pk;
                    crate::physical_plan::insert::spec_insert_rows(
                        crate::storage_engine::tree_entries(
                            oldc.storage.tree_of(p->Insert_table),
                        ),
                        p->Insert_rows,
                        pk,
                        0,
                    ) == Ok::<Map<Seq<u8>, Seq<u8>>, ErrorV>(
                        crate::storage_engine::tree_entries(
                            newc.storage.tree_of(p->Insert_table),
                        ),
                    )
                })
            },
            Err(e) => (e is StorageError) || (!crate::catalog::catalog_contains(
                oldc.catalog@,
                p->Insert_table,
            ) && e@ == ErrorV::CatalogError(
                crate::catalog::error::CatalogErrorV::TableDoesNotExist { name: p->Insert_table },
            ) && newc == oldc),
        }
    })
}

/// The labels of the chain starting at `p`, one single-column row each.
fn explain_rows(p: &PhysicalPlan) -> (r: Vec<Tuple>)
    ensures
        r.deep_view() == spec_explain_chain(p@),
    decreases p,
{
    let label: &'static str = match p {
        PhysicalPlan::CreateTable(_) => "CreateTableExec",
        PhysicalPlan::DescribeTable(_) => "DescribeTableExec",
        PhysicalPlan::Explain(_) => "ExplainExec",
        PhysicalPlan::Filter(_) => "FilterExec",
        PhysicalPlan::Insert(_) => "InsertExec",
        PhysicalPlan::Limit(_) => "LimitExec",
        PhysicalPlan::OneRowPlaceholder(_) => "OneRowPlaceholderExec",
        PhysicalPlan::Projection(_) => "ProjectionExec",
        PhysicalPlan::ShowTables(_) => "ShowTablesExec",
        PhysicalPlan::TableScan(_) => "TableScanExec",
    };
    let mut cells: Vec<crate::data::types::Data> = Vec::new();
    cells.push(crate::data::types::Data::String(label.to_owned()));
    let first = Tuple::new(cells);
    proof {
        assert(first@ =~= seq![DataVal::String(spec_op_name(p@))]);
    }
    let mut out: Vec<Tuple> = Vec::new();
    let ghost fv = first@;
    out.push(first);
    proof {
        assert(out.deep_view() =~= seq![fv]);
    }
    let mut rest: Vec<Tuple> = match p {
        PhysicalPlan::Explain(x) => explain_rows(&x.plan),
        PhysicalPlan::Filter(f) => explain_rows(&f.input),
        PhysicalPlan::Limit(l) => explain_rows(&l.input),
        PhysicalPlan::Projection(pr) => explain_rows(&pr.input),
        _ => Vec::new(),
    };
    proof {
        assert(out.deep_view().len() == out@.len());
        assert(rest.deep_view().len() == rest@.len());
    }
    let ghost out_old = out@;
    let ghost rest_old = rest@;
    let ghost out_dv = out.deep_view();
    let ghost rest_dv = rest.deep_view();
    out.append(&mut rest);
    proof {
        assert(out@ =~= out_old + rest_old);
        assert(out.deep_view() =~= out_dv + rest_dv);
        if !(p@ is Explain) && !(p@ is Filter) && !(p@ is Limit) && !(p@ is Projection) {
            assert(rest_dv =~= Seq::<Seq<DataVal>>::empty());
        }
        assert(out.deep_view() =~= spec_explain_chain(p@));
    }
    out
}

impl PhysicalPlan {
    /// The output schema this operator advertises.
    pub fn schema(&self) -> (r: Schema)
        ensures
            r@ == spec_op_schema(self@),
        decreases self,
    {
        match self {
            PhysicalPlan::CreateTable(_) => Schema::empty(),
            PhysicalPlan::Insert(_) => Schema::empty(),
            PhysicalPlan::OneRowPlaceholder(_) => Schema::empty(),
            PhysicalPlan::DescribeTable(_) => {
                let mut fields: Vec<(String, DataType)> = Vec::new();
                fields.push((String::from_str("column_name"), DataType::String));
                fields.push((String::from_str("column_type"), DataType::String));
                fields.push((String::from_str("null"), DataType::String));
                fields.push((String::from_str("key"), DataType::String));
                proof {
                    reveal_strlit("column_name");
                    reveal_strlit("column_type");
                    reveal_strlit("null");
                    reveal_strlit("key");
                    assert(fields.deep_view() =~= seq![
                        ("column_name"@, DataType::String),
                        ("column_type"@, DataType::String),
                        ("null"@, DataType::String),
                        ("key"@, DataType::String),
                    ]);
                    assert("column_name"@.len() == 11);
                    assert("column_type"@.len() == 11);
                    assert("null"@.len() == 4);
                    assert("key"@.len() == 3);
                    assert("column_name"@[7] == 'n');
                    assert("column_type"@[7] == 't');
                    assert("column_name"@ != "column_type"@);
                    crate::catalog::schema::lemma_schema_of(fields.deep_view());
                }
                match Schema::new_with_duplicate_check(fields) {
                    Ok(s) => {
                        proof {
                            assert(s@ =~= spec_op_schema(self@));
                        }
                        s
                    },
                    Err(_) => {
                        proof {
                            assert(false);
                        }
                        Schema::empty()
                    },
                }
            },
            PhysicalPlan::Explain(_) => {
                let mut fields: Vec<(String, DataType)> = Vec::new();
                fields.push((String::from_str("Physical Plan"), DataType::String));
                proof {
                    assert(fields.deep_view() =~= seq![("Physical Plan"@, DataType::String)]);
                    crate::catalog::schema::lemma_schema_of(fields.deep_view());
                }
                match Schema::new_with_duplicate_check(fields) {
                    Ok(s) => {
                        proof {
                            assert(s@ =~= spec_op_schema(self@));
                        }
                        s
                    },
                    Err(_) => {
                        proof {
                            assert(false);
                        }
                        Schema::empty()
                    },
                }
            },
            PhysicalPlan::ShowTables(_) => {
                let mut fields: Vec<(String, DataType)> = Vec::new();
                fields.push((String::from_str("name"), DataType::String));
                proof {
                    assert(fields.deep_view() =~= seq![("name"@, DataType::String)]);
                    crate::catalog::schema::lemma_schema_of(fields.deep_view());
                }
                match Schema::new_with_duplicate_check(fields) {
                    Ok(s) => {
                        proof {
                            assert(s@ =~= spec_op_schema(self@));
                        }
                        s
                    },
                    Err(_) => {
                        proof {
                            assert(false);
                        }
                        Schema::empty()
                    },
                }
            },
            PhysicalPlan::Filter(f) => f.input.schema(),
            PhysicalPlan::Limit(l) => l.input.schema(),
            PhysicalPlan::Projection(pr) => pr.schema.clone(),
            PhysicalPlan::TableScan(t) => t.schema.clone(),
        }
    }

    /// The short stable label of this operator.
    pub fn name(&self) -> (r: &'static str)
        ensures
            r@ == spec_op_name(self@),
    {
        match self {
            PhysicalPlan::CreateTable(_) => "CreateTableExec",
            PhysicalPlan::DescribeTable(_) => "DescribeTableExec",
            PhysicalPlan::Explain(_) => "ExplainExec",
            PhysicalPlan::Filter(_) => "FilterExec",
            PhysicalPlan::Insert(_) => "InsertExec",
            PhysicalPlan::Limit(_) => "LimitExec",
            PhysicalPlan::OneRowPlaceholder(_) => "OneRowPlaceholderExec",
            PhysicalPlan::Projection(_) => "ProjectionExec",
            PhysicalPlan::ShowTables(_) => "ShowTablesExec",
            PhysicalPlan::TableScan(_) => "TableScanExec",
        }
    }

    /// The operator's child, for `EXPLAIN` traversal; leaves have none.
    pub fn child(&self) -> (r: Option<&PhysicalPlan>)
        ensures
            match r {
                Some(c) => spec_op_child(self@) == Some(c@),
                None => spec_op_child(self@) is None,
            },
    {
        match self {
            PhysicalPlan::Explain(x) => Some(&x.plan),
            PhysicalPlan::Filter(f) => Some(&f.input),
            PhysicalPlan::Limit(l) => Some(&l.input),
            PhysicalPlan::Projection(pr) => Some(&pr.input),
            _ => None,
        }
    }

    /// Run the operator tree once.  A read-only plan leaves the session
    /// untouched and, absent storage faults, produces exactly the rows
    /// [`spec_rows`] describes; the create-table and insert roots mutate
    /// the session as their own operators state.
    pub fn execute(&self, ctx: &mut Context) -> (r: Result<TupleStream, Error>)
        requires
            plan_wf(self@),
            old(ctx).catalog.wf(),
            old(ctx).storage.wf(),
            old(ctx).storage.has_tree(crate::catalog::vinyl_table::TABLE_NAME@),
        ensures
            execute_post(self@, *old(ctx), *final (ctx), r),
        decreases self,
    {
        match self {
            PhysicalPlan::CreateTable(c) => c.execute(ctx),
            PhysicalPlan::Insert(i) => i.execute(ctx),
            PhysicalPlan::OneRowPlaceholder(_) => {
                let mut rows: Vec<Tuple> = Vec::new();
                rows.push(Tuple::empty());
                proof {
                    assert(rows.deep_view() =~= seq![Seq::<DataVal>::empty()]);
                }
                Ok(TupleStream::new(rows))
            },
            PhysicalPlan::ShowTables(_) => Ok(TupleStream::new(show_rows(&ctx.catalog))),
            PhysicalPlan::DescribeTable(d) => {
                match describe_rows(&ctx.catalog, d.name.as_str()) {
                    Err(e) => Err(e),
                    Ok(rows) => Ok(TupleStream::new(rows)),
                }
            },
            PhysicalPlan::TableScan(t) => {
                match scan_rows(&ctx.storage, t.table.as_str(), &t.schema) {
                    Err(e) => Err(e),
                    Ok(rows) => Ok(TupleStream::new(rows)),
                }
            },
            PhysicalPlan::Explain(x) => Ok(TupleStream::new(explain_rows(&x.plan))),
            PhysicalPlan::Filter(f) => {
                let in_schema = f.input.schema();
                match f.input.execute(ctx) {
                    Err(e) => Err(e),
                    Ok(s) => {
                        let rows = s.into_rows();
                        match apply_filter(&f.predicate, &in_schema, rows) {
                            Err(e) => Err(e),
                            Ok(kept) => Ok(TupleStream::new(kept)),
                        }
                    },
                }
            },
            PhysicalPlan::Limit(l) => {
                match l.input.execute(ctx) {
                    Err(e) => Err(e),
                    Ok(s) => {
                        let rows = s.into_rows();
                        Ok(TupleStream::new(apply_limit(&l.offset, &l.limit, rows)))
                    },
                }
            },
            PhysicalPlan::Projection(pr) => {
                let in_schema = pr.input.schema();
                match pr.input.execute(ctx) {
                    Err(e) => Err(e),
                    Ok(s) => {
                        let rows = s.into_rows();
                        match apply_projection(&pr.expr, &in_schema, rows) {
                            Err(e) => Err(e),
                            Ok(out) => Ok(TupleStream::new(out)),
                        }
                    },
                }
            },
        }
    }
}

} // verus!
