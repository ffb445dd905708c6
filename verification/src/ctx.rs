//! The session context: configuration, catalog, and storage.

use crate::ast::Statement;
use crate::catalog::schema::ColumnV;
use crate::catalog::vinyl_table;
use crate::catalog::{catalog_contains, lemma_table_index_of, spec_table_index_of, Catalog, Table,
    TableV};
use crate::config::Config;
use crate::data::tuple::{spec_tuple_decode, Tuple, TupleStream};
use crate::data::types::{Data, DataVal};
use crate::error::{res_view, Error, ErrorV};
use crate::expr::Expr;
use crate::logical_plan::{LogicalPlan, LogicalPlanV};
use crate::physical_plan::create_table::CreateTableExec;
use crate::physical_plan::describe_table::DescribeTableExec;
use crate::physical_plan::execute_post;
use crate::physical_plan::explain::ExplainExec;
use crate::physical_plan::filter::FilterExec;
use crate::physical_plan::insert::InsertExec;
use crate::physical_plan::limit::LimitExec;
use crate::physical_plan::one_row_placeholder::OneRowPlaceholderExec;
use crate::physical_plan::projection::ProjectionExec;
use crate::physical_plan::show_tables::ShowTablesExec;
use crate::physical_plan::table_scan::TableScanExec;
use crate::physical_plan::{plan_readonly, plan_wf, PhysicalPlan, PhysicalPlanV};
use crate::plan::create_table::{create_table_to_name_schema, spec_create_table_to_name_schema};
use crate::storage_engine::StorageEngine;
use vstd::prelude::*;
use vstd::string::*;

verus! {

/// The table descriptor of the reserved catalog table.
pub open spec fn spec_vinyl_descriptor() -> TableV {
    TableV { name: vinyl_table::TABLE_NAME@, schema: vinyl_table::spec_vinyl_schema(), pk: 0 }
}

/// Context for planning and executing statements: the user-visible
/// settings, the catalog, and the storage handle.
#[derive(Debug)]
pub struct Context {
    pub config: Config,
    pub catalog: Catalog,
    pub storage: StorageEngine,
}

impl Context {
    /// The catalog is well formed, opens with the reserved catalog table,
    /// and the storage engine is well formed and holds the reserved
    /// sub-tree.
    pub open spec fn wf(&self) -> bool {
        &&& self.catalog.wf()
        &&& self.storage.wf()
        &&& self.catalog@.len() >= 1
        &&& self.catalog@[0] == spec_vinyl_descriptor()
        &&& self.storage.has_tree(vinyl_table::TABLE_NAME@)
    }

    /// Open a session over the given data directory: open the store,
    /// restore the sub-tree handles, and install the reserved catalog
    /// table's descriptor.  User tables are installed by [`Self::bootstrap`]
    /// once the embedder has re-parsed the stored statements.
    pub fn new(data_path: String) -> (r: Result<Context, Error>)
        ensures
            match r {
                Ok(ctx) => {
                    &&& ctx.wf()
                    &&& ctx.catalog@ == seq![spec_vinyl_descriptor()]
                    &&& ctx.config@.data_path == data_path@
                    &&& !ctx.config@.show_ast
                    &&& ctx.config@.timer
                },
                Err(e) => e is StorageError,
            },
    {
        let config = Config::new(data_path);
        let storage = match StorageEngine::new(&config) {
            Err(e) => {
                return Err(e);
            },
            Ok(s) => s,
        };
        let mut catalog = Catalog::new();
        let descriptor = Table::new(
            String::from_str(vinyl_table::TABLE_NAME),
            vinyl_table::schema(),
            0,
        );
        proof {
            crate::catalog::lemma_table_index_of(catalog@, vinyl_table::TABLE_NAME@);
        }
        match catalog.add_table(descriptor) {
            Ok(()) => {},
            Err(_) => {
                proof {
                    assert(false);
                }
            },
        }
        proof {
            assert(catalog@ =~= seq![spec_vinyl_descriptor()]);
        }
        Ok(Context { config, catalog, storage })
    }

    /// Install the user tables declared by the given `CREATE TABLE`
    /// statements, in order; they are the re-parsed statements stored in
    /// the reserved catalog table.
    pub fn bootstrap(&mut self, stmts: &Vec<Statement>) -> (r: Result<(), Error>)
        requires
            old(self).wf(),
        ensures
            final (self).wf(),
            final (self).config == old(self).config,
            final (self).storage == old(self).storage,
            match r {
                Ok(()) => spec_bootstrap(old(self).catalog@, stmts@, 0) == Ok::<
                    Seq<TableV>,
                    ErrorV,
                >(final (self).catalog@),
                Err(e) => spec_bootstrap(old(self).catalog@, stmts@, 0) == Err::<
                    Seq<TableV>,
                    ErrorV,
                >(e@),
            },
    {
        let n = stmts.len();
        for i in 0..n
            invariant
                n == stmts.len(),
                self.wf(),
                self.config == old(self).config,
                self.storage == old(self).storage,
                spec_bootstrap(old(self).catalog@, stmts@, 0) == spec_bootstrap(
                    self.catalog@,
                    stmts@,
                    i as int,
                ),
        {
            let stmt = &stmts[i];
            let is_create = match stmt {
                Statement::CreateTable { .. } => true,
                _ => false,
            };
            if !is_create {
                return Err(
                    Error::StorageError {
                        message: String::from_str(
                            "stored catalog row is not a CREATE TABLE statement",
                        ),
                    },
                );
            }
            match create_table_to_name_schema(stmt) {
                Err(e) => {
                    return Err(e);
                },
                Ok(pair) => {
                    let (name, schema) = pair;
                    let descriptor = Table::new(name, schema, 0);
                    let ghost pre = self.catalog@;
                    match self.catalog.add_table(descriptor) {
                        Err(e) => {
                            return Err(Error::CatalogError(e));
                        },
                        Ok(()) => {
                            proof {
                                assert(self.catalog@[0] == pre[0]);
                            }
                        },
                    }
                },
            }
        }
        Ok(())
    }
}

/// Install the descriptors the statements from position `i` on declare:
/// each must be a `CREATE TABLE` whose name is not yet registered.
pub open spec fn spec_bootstrap(cat: Seq<TableV>, stmts: Seq<Statement>, i: int) -> Result<
    Seq<TableV>,
    ErrorV,
>
    decreases stmts.len() - i,
{
    if i < 0 || i >= stmts.len() {
        Ok(cat)
    } else if !(stmts[i] is CreateTable) {
        Err(
            ErrorV::StorageError {
                message: "stored catalog row is not a CREATE TABLE statement"@,
            },
        )
    } else {
        match spec_create_table_to_name_schema(stmts[i]) {
            Err(e) => Err(e),
            Ok((nm, schema)) => if catalog_contains(cat, nm) {
                Err(
                    ErrorV::CatalogError(
                        crate::catalog::error::CatalogErrorV::TableExists { name: nm },
                    ),
                )
            } else {
                spec_bootstrap(cat.push(TableV { name: nm, schema, pk: 0 }), stmts, i + 1)
            },
        }
    }
}


/// Whether no mutating operation stands anywhere in the logical tree.
pub open spec fn spec_lp_readonly(lp: LogicalPlanV) -> bool
    decreases lp,
{
    match lp {
        LogicalPlanV::CreateTable { .. } => false,
        LogicalPlanV::Insert { .. } => false,
        LogicalPlanV::Filter { input, .. } => spec_lp_readonly(*input),
        LogicalPlanV::Limit { input, .. } => spec_lp_readonly(*input),
        LogicalPlanV::Projection { input, .. } => spec_lp_readonly(*input),
        _ => true,
    }
}

/// Whether no mutating operation stands anywhere in the tree.
fn lp_readonly(lp: &LogicalPlan) -> (r: bool)
    ensures
        r == spec_lp_readonly(lp@),
    decreases lp,
{
    match lp {
        LogicalPlan::CreateTable { .. } => false,
        LogicalPlan::Insert { .. } => false,
        LogicalPlan::Filter { predicate, input } => lp_readonly(input),
        LogicalPlan::Limit { offset, limit, input } => lp_readonly(input),
        LogicalPlan::Projection { expr, schema, input } => lp_readonly(input),
        _ => true,
    }
}

/// The physical operator a logical plan lowers to: same tree shape, with
/// the table scan resolving its schema through the catalog.  A create
/// table whose schema is malformed, or a mutating operation below the
/// root, is rejected as a malformed plan.
pub open spec fn spec_create_physical(cat: Seq<TableV>, lp: LogicalPlanV) -> Result<
    PhysicalPlanV,
    ErrorV,
>
    decreases lp,
{
    match lp {
        LogicalPlanV::CreateTable { name, schema, pk, sql } => if
        crate::catalog::schema::schema_wf(schema) && 0 <= pk < schema.len() {
            Ok(PhysicalPlanV::CreateTable { name, schema, pk, sql })
        } else {
            Err(ErrorV::StorageError { message: "malformed create-table plan"@ })
        },
        LogicalPlanV::Explain { plan } => match spec_create_physical(cat, *plan) {
            Err(e) => Err(e),
            Ok(p) => Ok(PhysicalPlanV::Explain { plan: Box::new(p) }),
        },
        LogicalPlanV::ShowTables => Ok(PhysicalPlanV::ShowTables),
        LogicalPlanV::DescribeTable { name } => Ok(PhysicalPlanV::DescribeTable { name }),
        LogicalPlanV::Insert { table, rows } => Ok(PhysicalPlanV::Insert { table, rows }),
        LogicalPlanV::TableScan { name } => if !catalog_contains(cat, name) {
            Err(
                ErrorV::CatalogError(
                    crate::catalog::error::CatalogErrorV::TableDoesNotExist { name },
                ),
            )
        } else {
            Ok(
                PhysicalPlanV::TableScan {
                    table: name,
                    schema: cat[spec_table_index_of(cat, name)].schema,
                },
            )
        },
        LogicalPlanV::Filter { predicate, input } => if !spec_lp_readonly(*input) {
            Err(ErrorV::StorageError { message: "mutating operation below the plan root"@ })
        } else {
            match spec_create_physical(cat, *input) {
                Err(e) => Err(e),
                Ok(p) => Ok(PhysicalPlanV::Filter { predicate, input: Box::new(p) }),
            }
        },
        LogicalPlanV::Limit { offset, limit, input } => if !spec_lp_readonly(*input) {
            Err(ErrorV::StorageError { message: "mutating operation below the plan root"@ })
        } else {
            match spec_create_physical(cat, *input) {
                Err(e) => Err(e),
                Ok(p) => Ok(PhysicalPlanV::Limit { offset, limit, input: Box::new(p) }),
            }
        },
        LogicalPlanV::Projection { expr, schema, input } => if !spec_lp_readonly(*input) {
            Err(ErrorV::StorageError { message: "mutating operation below the plan root"@ })
        } else {
            match spec_create_physical(cat, *input) {
                Err(e) => Err(e),
                Ok(p) => Ok(PhysicalPlanV::Projection { expr, schema, input: Box::new(p) }),
            }
        },
        LogicalPlanV::OneRowPlaceholder => Ok(PhysicalPlanV::OneRowPlaceholder),
    }
}

/// Clone a list of expressions.
fn clone_exprs(v: &Vec<Expr>) -> (r: Vec<Expr>)
    ensures
        r.deep_view() == v.deep_view(),
{
    let n = v.len();
    let mut out: Vec<Expr> = Vec::new();
    for i in 0..n
        invariant
            n == v.len(),
            out.deep_view() == v.deep_view().take(i as int),
    {
        proof {
            assert(v.deep_view().len() == v@.len());
            assert(out.deep_view().len() == out@.len());
            assert(v.deep_view()[i as int] == v@[i as int].deep_view());
        }
        let e = v[i].clone();
        let ghost prev = out@;
        out.push(e);
        proof {
            assert(out@.len() == prev.len() + 1);
            assert(forall|j: int| 0 <= j < prev.len() ==> out@[j] == prev[j]);
            assert(out.deep_view() =~= v.deep_view().take(i + 1));
        }
    }
    proof {
        assert(v.deep_view().take(n as int) =~= v.deep_view());
    }
    out
}

/// Clone a list of tuples.
fn clone_tuples(v: &Vec<Tuple>) -> (r: Vec<Tuple>)
    ensures
        r.deep_view() == v.deep_view(),
{
    let n = v.len();
    let mut out: Vec<Tuple> = Vec::new();
    for i in 0..n
        invariant
            n == v.len(),
            out.deep_view() == v.deep_view().take(i as int),
    {
        proof {
            assert(v.deep_view().len() == v@.len());
            assert(out.deep_view().len() == out@.len());
            assert(v.deep_view()[i as int] == v@[i as int].deep_view());
        }
        let e = v[i].clone();
        let ghost prev = out@;
        out.push(e);
        proof {
            assert(out@.len() == prev.len() + 1);
            assert(forall|j: int| 0 <= j < prev.len() ==> out@[j] == prev[j]);
            assert(out.deep_view() =~= v.deep_view().take(i + 1));
        }
    }
    proof {
        assert(v.deep_view().take(n as int) =~= v.deep_view());
    }
    out
}

impl Context {
    /// Lower a statement into a logical plan against this session's
    /// catalog.
    pub fn statement_to_logical_plan(&self, statement: &Statement) -> (r: Result<
        LogicalPlan,
        Error,
    >)
        ensures
            res_view(r) == crate::plan::spec_statement_to_logical_plan(self.catalog@, *statement),
    {
        crate::plan::statement_to_logical_plan(&self.catalog, statement)
    }

    /// Rewrite a logical plan into a physical operator tree.
    pub fn create_physical_plan(&self, logical_plan: &LogicalPlan) -> (r: Result<
        PhysicalPlan,
        Error,
    >)
        ensures
            res_view(r) == spec_create_physical(self.catalog@, logical_plan@),
            r matches Ok(p) ==> plan_wf(p@) && (plan_readonly(p@) == spec_lp_readonly(
                logical_plan@,
            )),
    {
        build_physical(&self.catalog, logical_plan)
    }

    /// Run a physical plan against this session.
    pub fn execute(&mut self, physical_plan: &PhysicalPlan) -> (r: Result<TupleStream, Error>)
        requires
            old(self).wf(),
            plan_wf(physical_plan@),
        ensures
            final (self).wf(),
            execute_post(physical_plan@, *old(self), *final (self), r),
    {
        let ghost pre = *self;
        let r = physical_plan.execute(self);
        proof {
            let p = physical_plan@;
            assert(self.storage.has_tree(vinyl_table::TABLE_NAME@));
            if p is CreateTable {
                match r {
                    Ok(_) => {
                        assert(self.catalog@[0] == pre.catalog@[0]);
                    },
                    Err(_) => {
                        if self.catalog@ == pre.catalog@.push(
                            TableV {
                                name: p->CreateTable_name,
                                schema: p->CreateTable_schema,
                                pk: p->CreateTable_pk,
                            },
                        ) {
                            assert(self.catalog@[0] == pre.catalog@[0]);
                        }
                    },
                }
            }
        }
        r
    }

    /// Run a physical plan and collect its whole output.
    pub fn collect(&mut self, physical_plan: &PhysicalPlan) -> (r: Result<Vec<Tuple>, Error>)
        requires
            old(self).wf(),
            plan_wf(physical_plan@),
        ensures
            final (self).wf(),
            match r {
                Ok(rows) => exists|s: TupleStream|
                    #[trigger] execute_post(
                        physical_plan@,
                        *old(self),
                        *final (self),
                        Ok(s),
                    ) && s.remaining() == rows.deep_view(),
                Err(e) => execute_post(physical_plan@, *old(self), *final (self), Err(e)),
            },
    {
        match self.execute(physical_plan) {
            Err(e) => Err(e),
            Ok(s) => {
                let ghost sg = s;
                let rows = s.into_rows();
                proof {
                    assert(execute_post(physical_plan@, *old(self), *final (self), Ok(sg)));
                }
                Ok(rows)
            },
        }
    }

    /// The stored `CREATE TABLE` texts of the reserved catalog sub-tree, in
    /// key order; the embedder re-parses them and hands them to
    /// [`Self::bootstrap`].
    pub fn stored_create_sqls(&self) -> (r: Result<Vec<String>, Error>)
        requires
            self.wf(),
        ensures
            match r {
                Ok(sqls) => spec_stored_sqls(self.storage) == Ok::<Seq<Seq<char>>, ErrorV>(
                    sqls.deep_view(),
                ),
                Err(e) => e is StorageError || spec_stored_sqls(self.storage) == Err::<
                    Seq<Seq<char>>,
                    ErrorV,
                >(e@),
            },
    {
        let schema = vinyl_table::schema();
        let pairs = match self.storage.scan_table(vinyl_table::TABLE_NAME) {
            Err(e) => {
                return Err(e);
            },
            Ok(pairs) => pairs,
        };
        let ghost listing = crate::storage_engine::tree_sorted_entries(
            self.storage.tree_of(vinyl_table::TABLE_NAME@),
        );
        let n = pairs.len();
        let mut out: Vec<String> = Vec::new();
        proof {
            assert(pairs.deep_view().len() == pairs@.len());
            assert(out.deep_view() =~= Seq::<Seq<char>>::empty());
            match spec_sqls_of_listing(listing, 0) {
                Err(_) => {},
                Ok(rest) => {
                    assert(out.deep_view() + rest =~= rest);
                },
            }
        }
        for i in 0..n
            invariant
                self.wf(),
                listing == crate::storage_engine::tree_sorted_entries(
                    self.storage.tree_of(vinyl_table::TABLE_NAME@),
                ),
                pairs.deep_view() == listing,
                n == pairs.len(),
                n == listing.len(),
                schema@ == vinyl_table::spec_vinyl_schema(),
                spec_sqls_of_listing(listing, 0) == match spec_sqls_of_listing(
                    listing,
                    i as int,
                ) {
                    Err(e) => Err::<Seq<Seq<char>>, ErrorV>(e),
                    Ok(rest) => Ok(out.deep_view() + rest),
                },
        {
            proof {
                assert(pairs.deep_view()[i as int] == pairs@[i as int].deep_view());
                assert(pairs@[i as int].deep_view() == (
                    pairs@[i as int].0.deep_view(),
                    pairs@[i as int].1.deep_view(),
                ));
                assert(pairs@[i as int].1.deep_view() =~= pairs@[i as int].1@);
                assert(listing[i as int].1 == pairs@[i as int].1@);
            }
            proof {
                crate::data::tuple::lemma_tuple_decode_conforms(
                    listing[i as int].1,
                    vinyl_table::spec_vinyl_schema(),
                );
            }
            match Tuple::decode(pairs[i].1.as_slice(), &schema) {
                None => {
                    return Err(
                        Error::StorageError {
                            message: String::from_str("stored catalog row does not decode"),
                        },
                    );
                },
                Some(t) => {
                    match t.get(1) {
                        Some(Data::String(sql)) => {
                            proof {
                                assert(out.deep_view().len() == out@.len());
                            }
                            let sqlv = sql.clone();
                            let ghost sv = sqlv@;
                            let ghost prev = out@;
                            out.push(sqlv);
                            proof {
                                assert(out@.len() == prev.len() + 1);
                                assert(forall|j: int|
                                    0 <= j < prev.len() ==> out@[j] == prev[j]);
                                let od = out.deep_view();
                                assert(od[prev.len() as int] == sv);
                                match spec_sqls_of_listing(listing, i + 1) {
                                    Err(_) => {},
                                    Ok(rest2) => {
                                        assert((Seq::new(
                                            prev.len() as nat,
                                            |j: int| prev[j].deep_view(),
                                        ) + (seq![sv] + rest2)) =~= (od + rest2));
                                    },
                                }
                            }
                        },
                        _ => {
                            proof {
                                assert(false);
                            }
                            return Err(
                                Error::StorageError {
                                    message: String::from_str(
                                        "stored catalog row does not decode",
                                    ),
                                },
                            );
                        },
                    }
                },
            }
        }
        proof {
            match spec_sqls_of_listing(listing, n as int) {
                Err(_) => {
                    assert(false);
                },
                Ok(rest) => {
                    assert(out.deep_view() + rest =~= out.deep_view());
                },
            }
        }
        Ok(out)
    }
}

/// The stored statement texts of the listed catalog rows from position `i`
/// on: the second column of each decoded row.
pub open spec fn spec_sqls_of_listing(listing: Seq<(Seq<u8>, Seq<u8>)>, i: int) -> Result<
    Seq<Seq<char>>,
    ErrorV,
>
    decreases listing.len() - i,
{
    if i < 0 || i >= listing.len() {
        Ok(Seq::empty())
    } else {
        match spec_tuple_decode(listing[i].1, vinyl_table::spec_vinyl_schema()) {
            None => Err(ErrorV::StorageError { message: "stored catalog row does not decode"@ }),
            Some(t) => match t[1] {
                DataVal::String(sql) => match spec_sqls_of_listing(listing, i + 1) {
                    Err(e) => Err(e),
                    Ok(rest) => Ok(seq![sql] + rest),
                },
                _ => Err(
                    ErrorV::StorageError { message: "stored catalog row does not decode"@ },
                ),
            },
        }
    }
}

/// The stored statement texts of the reserved catalog sub-tree, in key
/// order.
pub open spec fn spec_stored_sqls(store: StorageEngine) -> Result<Seq<Seq<char>>, ErrorV> {
    spec_sqls_of_listing(
        crate::storage_engine::tree_sorted_entries(store.tree_of(vinyl_table::TABLE_NAME@)),
        0,
    )
}

/// Rewrite a logical plan into a physical operator tree against the
/// catalog.
fn build_physical(catalog: &Catalog, lp: &LogicalPlan) -> (r: Result<PhysicalPlan, Error>)
    ensures
        res_view(r) == spec_create_physical(catalog@, lp@),
        r matches Ok(p) ==> plan_wf(p@) && (plan_readonly(p@) == spec_lp_readonly(lp@)),
    decreases lp,
{
    match lp {
        LogicalPlan::CreateTable { name, schema, pk, sql } => {
            if !schema.is_wf() || *pk >= schema.n_columns() {
                return Err(
                    Error::StorageError {
                        message: String::from_str("malformed create-table plan"),
                    },
                );
            }
            Ok(
                PhysicalPlan::CreateTable(
                    CreateTableExec::new(name.clone(), schema.clone(), *pk, sql.clone()),
                ),
            )
        },
        LogicalPlan::Explain { plan } => {
            match build_physical(catalog, plan) {
                Err(e) => Err(e),
                Ok(p) => Ok(PhysicalPlan::Explain(ExplainExec::new(Box::new(p)))),
            }
        },
        LogicalPlan::ShowTables => Ok(PhysicalPlan::ShowTables(ShowTablesExec)),
        LogicalPlan::DescribeTable { name } => Ok(
            PhysicalPlan::DescribeTable(DescribeTableExec::new(name.clone())),
        ),
        LogicalPlan::Insert { table, rows } => Ok(
            PhysicalPlan::Insert(InsertExec::new(table.clone(), clone_tuples(rows))),
        ),
        LogicalPlan::TableScan { name } => {
            proof {
                lemma_table_index_of(catalog@, name@);
            }
            match catalog.get_table(name.as_str()) {
                Err(e) => Err(Error::CatalogError(e)),
                Ok(t) => {
                    let schema = t.schema().clone();
                    Ok(PhysicalPlan::TableScan(TableScanExec::new(name.clone(), schema)))
                },
            }
        },
        LogicalPlan::Filter { predicate, input } => {
            if !lp_readonly(input) {
                return Err(
                    Error::StorageError {
                        message: String::from_str("mutating operation below the plan root"),
                    },
                );
            }
            match build_physical(catalog, input) {
                Err(e) => Err(e),
                Ok(p) => Ok(
                    PhysicalPlan::Filter(FilterExec::new(predicate.clone(), Box::new(p))),
                ),
            }
        },
        LogicalPlan::Limit { offset, limit, input } => {
            if !lp_readonly(input) {
                return Err(
                    Error::StorageError {
                        message: String::from_str("mutating operation below the plan root"),
                    },
                );
            }
            match build_physical(catalog, input) {
                Err(e) => Err(e),
                Ok(p) => Ok(PhysicalPlan::Limit(LimitExec::new(*offset, *limit, Box::new(p)))),
            }
        },
        LogicalPlan::Projection { expr, schema, input } => {
            if !lp_readonly(input) {
                return Err(
                    Error::StorageError {
                        message: String::from_str("mutating operation below the plan root"),
                    },
                );
            }
            match build_physical(catalog, input) {
                Err(e) => Err(e),
                Ok(p) => Ok(
                    PhysicalPlan::Projection(
                        ProjectionExec::new(clone_exprs(expr), schema.clone(), Box::new(p)),
                    ),
                ),
            }
        },
        LogicalPlan::OneRowPlaceholder => Ok(
            PhysicalPlan::OneRowPlaceholder(OneRowPlaceholderExec),
        ),
    }
}


/// Pushing a descriptor registers exactly its name in addition.
pub proof fn lemma_contains_push(cat: Seq<TableV>, d: TableV, n: Seq<char>)
    ensures
        catalog_contains(cat.push(d), n) == (catalog_contains(cat, n) || n == d.name),
{
    lemma_table_index_of(cat, n);
    lemma_table_index_of(cat.push(d), n);
    if catalog_contains(cat, n) {
        let i = spec_table_index_of(cat, n);
        assert(cat.push(d)[i] == cat[i]);
        if !catalog_contains(cat.push(d), n) {
            assert(cat.push(d)[i].name != n);
        }
    }
    if n == d.name && !catalog_contains(cat.push(d), n) {
        assert(cat.push(d)[cat.len() as int].name != n);
    }
    if catalog_contains(cat.push(d), n) && !catalog_contains(cat, n) && n != d.name {
        let i = spec_table_index_of(cat.push(d), n);
        if i < cat.len() {
            assert(cat[i].name == n);
            assert(cat[i].name != n);
        } else {
            assert(cat.push(d)[i] == d);
        }
    }
}

/// The name and schema a lowered `CREATE TABLE` plan carries are the ones
/// parsing the statement alone yields, with primary key zero.
pub proof fn lemma_convert_create_agrees(cat: Seq<TableV>, stmt: Statement)
    requires
        stmt is CreateTable,
        crate::plan::create_table::spec_convert_create(cat, stmt) is Ok,
    ensures
        ({
            let lp = crate::plan::create_table::spec_convert_create(cat, stmt)->Ok_0;
            &&& lp is CreateTable
            &&& spec_create_table_to_name_schema(stmt) == Ok::<(Seq<char>, Seq<ColumnV>), ErrorV>(
                (lp->CreateTable_name, lp->CreateTable_schema),
            )
            &&& lp->CreateTable_pk == 0
            &&& !catalog_contains(cat, lp->CreateTable_name)
        }),
{
}

/// Rebuilding the catalog from the same `CREATE TABLE` statements, in the
/// same order, reconstructs the same descriptors: the statements declare
/// pairwise distinct names, none already registered, and bootstrap
/// installs exactly one descriptor per statement, in order, each with
/// primary key zero.
pub proof fn lemma_bootstrap_rebuilds(cat: Seq<TableV>, stmts: Seq<Statement>, i: int)
    requires
        0 <= i <= stmts.len(),
        forall|j: int|
            i <= j < stmts.len() ==> (#[trigger] stmts[j]) is CreateTable
                && spec_create_table_to_name_schema(stmts[j]) is Ok,
        forall|j: int, k: int|
            i <= j < k < stmts.len() ==> spec_create_table_to_name_schema(stmts[j])->Ok_0.0
                != spec_create_table_to_name_schema(stmts[k])->Ok_0.0,
        forall|j: int|
            i <= j < stmts.len() ==> !catalog_contains(
                cat,
                spec_create_table_to_name_schema(#[trigger] stmts[j])->Ok_0.0,
            ),
    ensures
        spec_bootstrap(cat, stmts, i) == Ok::<Seq<TableV>, ErrorV>(
            cat + Seq::new(
                (stmts.len() - i) as nat,
                |j: int|
                    TableV {
                        name: spec_create_table_to_name_schema(stmts[i + j])->Ok_0.0,
                        schema: spec_create_table_to_name_schema(stmts[i + j])->Ok_0.1,
                        pk: 0,
                    },
            ),
        ),
    decreases stmts.len() - i,
{
    if i >= stmts.len() {
        assert(cat + Seq::new(0, |j: int| TableV { name: Seq::empty(), schema: Seq::empty(), pk: 0 })
            =~= cat);
        assert(spec_bootstrap(cat, stmts, i) == Ok::<Seq<TableV>, ErrorV>(cat));
        assert(Seq::new(
            (stmts.len() - i) as nat,
            |j: int|
                TableV {
                    name: spec_create_table_to_name_schema(stmts[i + j])->Ok_0.0,
                    schema: spec_create_table_to_name_schema(stmts[i + j])->Ok_0.1,
                    pk: 0,
                },
        ) =~= Seq::<TableV>::empty());
        assert(cat + Seq::<TableV>::empty() =~= cat);
    } else {
        let (nm, schema) = spec_create_table_to_name_schema(stmts[i])->Ok_0;
        let d = TableV { name: nm, schema, pk: 0 };
        assert(!catalog_contains(cat, nm));
        assert forall|j: int|
            i + 1 <= j < stmts.len() implies !catalog_contains(
            cat.push(d),
            spec_create_table_to_name_schema(#[trigger] stmts[j])->Ok_0.0,
        ) by {
            let njs = spec_create_table_to_name_schema(stmts[j])->Ok_0.0;
            lemma_contains_push(cat, d, njs);
        }
        lemma_bootstrap_rebuilds(cat.push(d), stmts, i + 1);
        let tail = Seq::new(
            (stmts.len() - i - 1) as nat,
            |j: int|
                TableV {
                    name: spec_create_table_to_name_schema(stmts[i + 1 + j])->Ok_0.0,
                    schema: spec_create_table_to_name_schema(stmts[i + 1 + j])->Ok_0.1,
                    pk: 0,
                },
        );
        let whole = Seq::new(
            (stmts.len() - i) as nat,
            |j: int|
                TableV {
                    name: spec_create_table_to_name_schema(stmts[i + j])->Ok_0.0,
                    schema: spec_create_table_to_name_schema(stmts[i + j])->Ok_0.1,
                    pk: 0,
                },
        );
        assert(cat.push(d) + tail =~= cat + (seq![d] + tail));
        assert(seq![d] + tail =~= whole);
        assert(cat + (seq![d] + tail) =~= cat + whole);
    }
}

} // verus!
