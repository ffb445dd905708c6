//! Lowering `SELECT` queries.
//!
//! A query with no `FROM` reads from a single empty placeholder row and
//! only accepts constant expressions; a query over one table scans it.
//! `WHERE` wraps the base in a filter, `LIMIT`/`OFFSET` (evaluated as
//! constants) wrap it in a limit, and the projection list determines the
//! output schema: aliases name columns where present, otherwise the
//! expression's display text does.

use crate::ast::{Select, SelectItem, SqlExpr, Statement, TableFactor};
use crate::catalog::error::CatalogErrorV;
use crate::catalog::schema::{spec_collect_columns, ColumnV, Schema};
use crate::catalog::{catalog_contains, lemma_table_index_of, spec_table_index_of, Catalog, TableV};
use crate::data::types::{Data, DataType, DataVal};
use crate::error::{res_view, Error, ErrorV};
use crate::expr::{spec_datatype_of_constant, spec_eval_constant, spec_expr_datatype,
    spec_is_constant, Expr, ExprV};
use crate::logical_plan::{LogicalPlan, LogicalPlanV};
use crate::plan::error::{PlanError, PlanErrorV, UnimplementedFeature, UnimplementedFeatureV};
use crate::plan::expr::{convert_expr, spec_convert_expr, spec_sql_expr_display, sql_expr_display};
use crate::plan::object_name_to_table_name::{
    object_name_to_table_name, spec_object_name_to_table_name,
};
use vstd::prelude::*;

verus! {

/// Evaluate a `LIMIT`/`OFFSET` expression as a constant; it must yield a
/// 64-bit integer that is neither negative nor beyond the machine's range.
pub open spec fn spec_evaluate_limit(e: SqlExpr) -> Result<int, ErrorV> {
    match spec_convert_expr(e) {
        Err(pe) => Err(ErrorV::PlanError(pe)),
        Ok(ex) => match spec_eval_constant(ex) {
            Err(err) => Err(err),
            Ok(d) => match d {
                DataVal::Int64(v) => if 0 <= v <= usize::MAX {
                    Ok(v as int)
                } else {
                    Err(
                        ErrorV::PlanError(
                            PlanErrorV::NonUintLimitOffset { expr: DataVal::Int64(v) },
                        ),
                    )
                },
                _ => Err(ErrorV::PlanError(PlanErrorV::NonUintLimitOffset { expr: d })),
            },
        },
    }
}

/// Evaluate an `OFFSET` expression; an offset of zero counts as absent.
pub open spec fn spec_evaluate_offset(e: SqlExpr) -> Result<Option<int>, ErrorV> {
    match spec_evaluate_limit(e) {
        Err(err) => Err(err),
        Ok(v) => if v == 0 {
            Ok(None)
        } else {
            Ok(Some(v))
        },
    }
}

/// Wrap `base` in a limit node when a bound is present and effective.
pub open spec fn spec_limit_wrap(
    base: LogicalPlanV,
    limit: Option<SqlExpr>,
    offset: Option<SqlExpr>,
) -> Result<LogicalPlanV, ErrorV> {
    match (limit, offset) {
        (Some(l), Some(o)) => match spec_evaluate_limit(l) {
            Err(e) => Err(e),
            Ok(lv) => match spec_evaluate_offset(o) {
                Err(e) => Err(e),
                Ok(ov) => Ok(
                    LogicalPlanV::Limit { offset: ov, limit: Some(lv), input: Box::new(base) },
                ),
            },
        },
        (Some(l), None) => match spec_evaluate_limit(l) {
            Err(e) => Err(e),
            Ok(lv) => Ok(
                LogicalPlanV::Limit { offset: None, limit: Some(lv), input: Box::new(base) },
            ),
        },
        (None, Some(o)) => match spec_evaluate_offset(o) {
            Err(e) => Err(e),
            Ok(None) => Ok(base),
            Ok(Some(ov)) => Ok(
                LogicalPlanV::Limit { offset: Some(ov), limit: None, input: Box::new(base) },
            ),
        },
        (None, None) => Ok(base),
    }
}

/// Translate the projection items of a `FROM`-less query from position `i`
/// on: each item must be a constant expression, named by its alias or its
/// display text; wildcards are rejected.
pub open spec fn spec_proj_without_from(items: Seq<SelectItem>, i: int) -> Result<
    (Seq<ExprV>, Seq<(Seq<char>, DataType)>),
    ErrorV,
>
    decreases items.len() - i,
{
    if i < 0 || i >= items.len() {
        Ok((Seq::empty(), Seq::empty()))
    } else {
        let step: Result<(Seq<ExprV>, Seq<(Seq<char>, DataType)>), ErrorV> = match items[i] {
            SelectItem::UnnamedExpr(e) => match spec_convert_expr(e) {
                Err(pe) => Err(ErrorV::PlanError(pe)),
                Ok(ex) => if !spec_is_constant(ex) {
                    Err(ErrorV::PlanError(PlanErrorV::NonConstantExprWithoutFrom { expr: ex }))
                } else {
                    match spec_datatype_of_constant(ex) {
                        Err(err) => Err(err),
                        Ok(dt) => Ok((seq![ex], seq![(spec_sql_expr_display(e), dt)])),
                    }
                },
            },
            SelectItem::ExprWithAlias { expr: e, alias } => match spec_convert_expr(e) {
                Err(pe) => Err(ErrorV::PlanError(pe)),
                Ok(ex) => if !spec_is_constant(ex) {
                    Err(ErrorV::PlanError(PlanErrorV::NonConstantExprWithoutFrom { expr: ex }))
                } else {
                    match spec_datatype_of_constant(ex) {
                        Err(err) => Err(err),
                        Ok(dt) => Ok((seq![ex], seq![(alias@, dt)])),
                    }
                },
            },
            SelectItem::Wildcard => Err(ErrorV::PlanError(PlanErrorV::WildcardWithoutFrom)),
            SelectItem::QualifiedWildcard => Err(
                ErrorV::PlanError(PlanErrorV::WildcardWithoutFrom),
            ),
        };
        match step {
            Err(e) => Err(e),
            Ok((es, cs)) => match spec_proj_without_from(items, i + 1) {
                Err(e) => Err(e),
                Ok((res, rcs)) => Ok((es + res, cs + rcs)),
            },
        }
    }
}

/// Translate the projection items of a single-table query from position
/// `i` on: expressions type against the table schema, `*` expands to every
/// column in schema order, `t.*` is rejected.
pub open spec fn spec_proj_with_from(
    schema: Seq<ColumnV>,
    items: Seq<SelectItem>,
    i: int,
) -> Result<(Seq<ExprV>, Seq<(Seq<char>, DataType)>), ErrorV>
    decreases items.len() - i,
{
    if i < 0 || i >= items.len() {
        Ok((Seq::empty(), Seq::empty()))
    } else {
        let step: Result<(Seq<ExprV>, Seq<(Seq<char>, DataType)>), ErrorV> = match items[i] {
            SelectItem::UnnamedExpr(e) => match spec_convert_expr(e) {
                Err(pe) => Err(ErrorV::PlanError(pe)),
                Ok(ex) => match spec_expr_datatype(ex, schema) {
                    Err(err) => Err(err),
                    Ok(dt) => Ok((seq![ex], seq![(spec_sql_expr_display(e), dt)])),
                },
            },
            SelectItem::ExprWithAlias { expr: e, alias } => match spec_convert_expr(e) {
                Err(pe) => Err(ErrorV::PlanError(pe)),
                Ok(ex) => match spec_expr_datatype(ex, schema) {
                    Err(err) => Err(err),
                    Ok(dt) => Ok((seq![ex], seq![(alias@, dt)])),
                },
            },
            SelectItem::Wildcard => Ok(
                (
                    Seq::new(schema.len(), |j: int| ExprV::Column(schema[j].name)),
                    Seq::new(schema.len(), |j: int| (schema[j].name, schema[j].datatype)),
                ),
            ),
            SelectItem::QualifiedWildcard => Err(
                ErrorV::PlanError(
                    PlanErrorV::Unimplemented(
                        UnimplementedFeatureV::ProjectionQualifiedWildcard,
                    ),
                ),
            ),
        };
        match step {
            Err(e) => Err(e),
            Ok((es, cs)) => match spec_proj_with_from(schema, items, i + 1) {
                Err(e) => Err(e),
                Ok((res, rcs)) => Ok((es + res, cs + rcs)),
            },
        }
    }
}

/// The logical plan of a `SELECT` without `FROM`: a constant filter and
/// constant projections over one empty placeholder row.
pub open spec fn spec_select_without_from(
    select: Select,
    limit: Option<SqlExpr>,
    offset: Option<SqlExpr>,
    display: Seq<char>,
) -> Result<LogicalPlanV, ErrorV> {
    let based: Result<LogicalPlanV, ErrorV> = match select.selection {
        None => Ok(LogicalPlanV::OneRowPlaceholder),
        Some(e) => match spec_convert_expr(e) {
            Err(pe) => Err(ErrorV::PlanError(pe)),
            Ok(ex) => if !spec_is_constant(ex) {
                Err(ErrorV::PlanError(PlanErrorV::NonConstantExprWithoutFrom { expr: ex }))
            } else {
                Ok(
                    LogicalPlanV::Filter {
                        predicate: ex,
                        input: Box::new(LogicalPlanV::OneRowPlaceholder),
                    },
                )
            },
        },
    };
    match based {
        Err(e) => Err(e),
        Ok(base) => match spec_limit_wrap(base, limit, offset) {
            Err(e) => Err(e),
            Ok(based2) => if select.projection@.len() == 0 {
                Err(
                    ErrorV::PlanError(
                        PlanErrorV::Unimplemented(
                            UnimplementedFeatureV::Statement { statement: display },
                        ),
                    ),
                )
            } else {
                match spec_proj_without_from(select.projection@, 0) {
                    Err(e) => Err(e),
                    Ok((es, cs)) => Ok(
                        LogicalPlanV::Projection {
                            expr: es,
                            schema: spec_collect_columns(cs),
                            input: Box::new(based2),
                        },
                    ),
                }
            },
        },
    }
}

/// The logical plan of a `SELECT` over exactly one table: a scan, an
/// optional filter and limit, and the projection.
pub open spec fn spec_select_with_from(
    catalog: Seq<TableV>,
    select: Select,
    limit: Option<SqlExpr>,
    offset: Option<SqlExpr>,
    display: Seq<char>,
) -> Result<LogicalPlanV, ErrorV>
    recommends
        select.from@.len() == 1,
{
    let twj = select.from@[0];
    if twj.has_joins {
        Err(
            ErrorV::PlanError(
                PlanErrorV::Unimplemented(UnimplementedFeatureV::Statement { statement: display }),
            ),
        )
    } else {
        match twj.relation {
            TableFactor::Other(_) => Err(
                ErrorV::PlanError(
                    PlanErrorV::Unimplemented(
                        UnimplementedFeatureV::Statement { statement: display },
                    ),
                ),
            ),
            TableFactor::Table(name) => match spec_object_name_to_table_name(name) {
                Err(pe) => Err(ErrorV::PlanError(pe)),
                Ok(nm) => if !catalog_contains(catalog, nm) {
                    Err(ErrorV::CatalogError(CatalogErrorV::TableDoesNotExist { name: nm }))
                } else {
                    let schema = catalog[spec_table_index_of(catalog, nm)].schema;
                    let based: Result<LogicalPlanV, ErrorV> = match select.selection {
                        None => Ok(LogicalPlanV::TableScan { name: nm }),
                        Some(e) => match spec_convert_expr(e) {
                            Err(pe) => Err(ErrorV::PlanError(pe)),
                            Ok(ex) => Ok(
                                LogicalPlanV::Filter {
                                    predicate: ex,
                                    input: Box::new(LogicalPlanV::TableScan { name: nm }),
                                },
                            ),
                        },
                    };
                    match based {
                        Err(e) => Err(e),
                        Ok(base) => match spec_limit_wrap(base, limit, offset) {
                            Err(e) => Err(e),
                            Ok(based2) => if select.projection@.len() == 0 {
                                Err(
                                    ErrorV::PlanError(
                                        PlanErrorV::Unimplemented(
                                            UnimplementedFeatureV::Statement {
                                                statement: display,
                                            },
                                        ),
                                    ),
                                )
                            } else {
                                match spec_proj_with_from(schema, select.projection@, 0) {
                                    Err(e) => Err(e),
                                    Ok((es, cs)) => Ok(
                                        LogicalPlanV::Projection {
                                            expr: es,
                                            schema: spec_collect_columns(cs),
                                            input: Box::new(based2),
                                        },
                                    ),
                                }
                            },
                        },
                    }
                },
            },
        }
    }
}

/// The logical plan of a query statement, by its `FROM` count: none, one
/// table, or *unimplemented*.
pub open spec fn spec_convert_query(catalog: Seq<TableV>, stmt: Statement) -> Result<
    LogicalPlanV,
    ErrorV,
>
    recommends
        stmt is Query,
{
    match stmt {
        Statement::Query { query, display } => match query.body {
            crate::ast::SetExpr::Select(select) => {
                if select.from@.len() == 0 {
                    spec_select_without_from(*select, query.limit, query.offset, display@)
                } else if select.from@.len() == 1 {
                    spec_select_with_from(catalog, *select, query.limit, query.offset, display@)
                } else {
                    Err(
                        ErrorV::PlanError(
                            PlanErrorV::Unimplemented(
                                UnimplementedFeatureV::Statement { statement: display@ },
                            ),
                        ),
                    )
                }
            },
            _ => Err(
                ErrorV::PlanError(
                    PlanErrorV::Unimplemented(
                        UnimplementedFeatureV::Statement { statement: display@ },
                    ),
                ),
            ),
        },
        _ => arbitrary(),
    }
}

/// Evaluate a `LIMIT` expression to a machine-sized count.
fn evaluate_limit(e: &SqlExpr) -> (r: Result<usize, Error>)
    ensures
        match r {
            Ok(u) => spec_evaluate_limit(*e) == Ok::<int, ErrorV>(u as int),
            Err(err) => spec_evaluate_limit(*e) == Err::<int, ErrorV>(err@),
        },
{
    let ex = match convert_expr(e) {
        Err(pe) => {
            return Err(Error::PlanError(pe));
        },
        Ok(ex) => ex,
    };
    let d = match ex.evaluate_constant_expr() {
        Err(err) => {
            return Err(err);
        },
        Ok(d) => d,
    };
    match d {
        Data::Int64(v) => {
            if v < 0 {
                return Err(
                    Error::PlanError(PlanError::NonUintLimitOffset { expr: Data::Int64(v) }),
                );
            }
            if (v as u64) > (usize::MAX as u64) {
                return Err(
                    Error::PlanError(PlanError::NonUintLimitOffset { expr: Data::Int64(v) }),
                );
            }
            Ok(v as usize)
        },
        other => Err(Error::PlanError(PlanError::NonUintLimitOffset { expr: other })),
    }
}

/// Evaluate an `OFFSET` expression; zero counts as absent.
fn evaluate_offset(e: &SqlExpr) -> (r: Result<Option<usize>, Error>)
    ensures
        match r {
            Ok(Some(u)) => spec_evaluate_offset(*e) == Ok::<Option<int>, ErrorV>(Some(u as int))
                && u > 0,
            Ok(None) => spec_evaluate_offset(*e) == Ok::<Option<int>, ErrorV>(None),
            Err(err) => spec_evaluate_offset(*e) == Err::<Option<int>, ErrorV>(err@),
        },
{
    match evaluate_limit(e) {
        Err(err) => Err(err),
        Ok(0) => Ok(None),
        Ok(v) => Ok(Some(v)),
    }
}

/// Wrap `base` in a limit node when a bound is present and effective.
fn apply_limit_offset(
    base: LogicalPlan,
    limit: &Option<SqlExpr>,
    offset: &Option<SqlExpr>,
) -> (r: Result<LogicalPlan, Error>)
    ensures
        match r {
            Ok(p) => spec_limit_wrap(base@, *limit, *offset) == Ok::<LogicalPlanV, ErrorV>(p@),
            Err(err) => spec_limit_wrap(base@, *limit, *offset) == Err::<LogicalPlanV, ErrorV>(
                err@,
            ),
        },
{
    match (limit, offset) {
        (Some(l), Some(o)) => {
            let lv = match evaluate_limit(l) {
                Err(e) => {
                    return Err(e);
                },
                Ok(lv) => lv,
            };
            let ov = match evaluate_offset(o) {
                Err(e) => {
                    return Err(e);
                },
                Ok(ov) => ov,
            };
            Ok(LogicalPlan::Limit { offset: ov, limit: Some(lv), input: Box::new(base) })
        },
        (Some(l), None) => {
            let lv = match evaluate_limit(l) {
                Err(e) => {
                    return Err(e);
                },
                Ok(lv) => lv,
            };
            Ok(LogicalPlan::Limit { offset: None, limit: Some(lv), input: Box::new(base) })
        },
        (None, Some(o)) => {
            let ov = match evaluate_offset(o) {
                Err(e) => {
                    return Err(e);
                },
                Ok(ov) => ov,
            };
            match ov {
                None => Ok(base),
                Some(v) => Ok(
                    LogicalPlan::Limit { offset: Some(v), limit: None, input: Box::new(base) },
                ),
            }
        },
        (None, None) => Ok(base),
    }
}

/// Translate one projection item of a `FROM`-less query.
fn proj_item_without_from(item: &SelectItem) -> (r: Result<
    (Vec<Expr>, Vec<(String, DataType)>),
    Error,
>)
    ensures
        match r {
            Ok(p) => spec_proj_without_from(seq![*item], 0) == Ok::<
                (Seq<ExprV>, Seq<(Seq<char>, DataType)>),
                ErrorV,
            >(p.deep_view()),
            Err(err) => spec_proj_without_from(seq![*item], 0) == Err::<
                (Seq<ExprV>, Seq<(Seq<char>, DataType)>),
                ErrorV,
            >(err@),
        },
{
    proof {
        assert(seq![*item].len() == 1);
        assert(seq![*item][0] == *item);
        assert(spec_proj_without_from(seq![*item], 1) == Ok::<
            (Seq<ExprV>, Seq<(Seq<char>, DataType)>),
            ErrorV,
        >((Seq::empty(), Seq::empty())));
    }
    match item {
        SelectItem::UnnamedExpr(e) => {
            let ex = match convert_expr(e) {
                Err(pe) => {
                    return Err(Error::PlanError(pe));
                },
                Ok(ex) => ex,
            };
            if !ex.is_constant() {
                return Err(
                    Error::PlanError(PlanError::NonConstantExprWithoutFrom { expr: ex }),
                );
            }
            let dt = match ex.datatype_of_constant_expr() {
                Err(err) => {
                    return Err(err);
                },
                Ok(dt) => dt,
            };
            let name = sql_expr_display(e);
            let mut es: Vec<Expr> = Vec::new();
            let mut cs: Vec<(String, DataType)> = Vec::new();
            let ghost exv = ex@;
            let ghost namev = name@;
            es.push(ex);
            cs.push((name, dt));
            proof {
                assert(es.deep_view() =~= seq![exv]);
                assert(cs.deep_view() =~= seq![(namev, dt)]);
                assert(seq![exv] + Seq::<ExprV>::empty() =~= seq![exv]);
                assert(seq![(namev, dt)] + Seq::<(Seq<char>, DataType)>::empty() =~= seq![
                    (namev, dt),
                ]);
            }
            Ok((es, cs))
        },
        SelectItem::ExprWithAlias { expr: e, alias } => {
            let ex = match convert_expr(e) {
                Err(pe) => {
                    return Err(Error::PlanError(pe));
                },
                Ok(ex) => ex,
            };
            if !ex.is_constant() {
                return Err(
                    Error::PlanError(PlanError::NonConstantExprWithoutFrom { expr: ex }),
                );
            }
            let dt = match ex.datatype_of_constant_expr() {
                Err(err) => {
                    return Err(err);
                },
                Ok(dt) => dt,
            };
            let name = alias.clone();
            let mut es: Vec<Expr> = Vec::new();
            let mut cs: Vec<(String, DataType)> = Vec::new();
            let ghost exv = ex@;
            let ghost namev = name@;
            es.push(ex);
            cs.push((name, dt));
            proof {
                assert(es.deep_view() =~= seq![exv]);
                assert(cs.deep_view() =~= seq![(namev, dt)]);
                assert(seq![exv] + Seq::<ExprV>::empty() =~= seq![exv]);
                assert(seq![(namev, dt)] + Seq::<(Seq<char>, DataType)>::empty() =~= seq![
                    (namev, dt),
                ]);
            }
            Ok((es, cs))
        },
        SelectItem::Wildcard => Err(Error::PlanError(PlanError::WildcardWithoutFrom)),
        SelectItem::QualifiedWildcard => Err(Error::PlanError(PlanError::WildcardWithoutFrom)),
    }
}

/// Translate one projection item of a single-table query.
fn proj_item_with_from(schema: &Schema, item: &SelectItem) -> (r: Result<
    (Vec<Expr>, Vec<(String, DataType)>),
    Error,
>)
    ensures
        match r {
            Ok(p) => spec_proj_with_from(schema@, seq![*item], 0) == Ok::<
                (Seq<ExprV>, Seq<(Seq<char>, DataType)>),
                ErrorV,
            >(p.deep_view()),
            Err(err) => spec_proj_with_from(schema@, seq![*item], 0) == Err::<
                (Seq<ExprV>, Seq<(Seq<char>, DataType)>),
                ErrorV,
            >(err@),
        },
{
    proof {
        assert(seq![*item].len() == 1);
        assert(seq![*item][0] == *item);
        assert(spec_proj_with_from(schema@, seq![*item], 1) == Ok::<
            (Seq<ExprV>, Seq<(Seq<char>, DataType)>),
            ErrorV,
        >((Seq::empty(), Seq::empty())));
    }
    match item {
        SelectItem::UnnamedExpr(e) => {
            let ex = match convert_expr(e) {
                Err(pe) => {
                    return Err(Error::PlanError(pe));
                },
                Ok(ex) => ex,
            };
            let dt = match ex.datatype(schema) {
                Err(err) => {
                    return Err(err);
                },
                Ok(dt) => dt,
            };
            let name = sql_expr_display(e);
            let mut es: Vec<Expr> = Vec::new();
            let mut cs: Vec<(String, DataType)> = Vec::new();
            let ghost exv = ex@;
            let ghost namev = name@;
            es.push(ex);
            cs.push((name, dt));
            proof {
                assert(es.deep_view() =~= seq![exv]);
                assert(cs.deep_view() =~= seq![(namev, dt)]);
                assert(seq![exv] + Seq::<ExprV>::empty() =~= seq![exv]);
                assert(seq![(namev, dt)] + Seq::<(Seq<char>, DataType)>::empty() =~= seq![
                    (namev, dt),
                ]);
            }
            Ok((es, cs))
        },
        SelectItem::ExprWithAlias { expr: e, alias } => {
            let ex = match convert_expr(e) {
                Err(pe) => {
                    return Err(Error::PlanError(pe));
                },
                Ok(ex) => ex,
            };
            let dt = match ex.datatype(schema) {
                Err(err) => {
                    return Err(err);
                },
                Ok(dt) => dt,
            };
            let name = alias.clone();
            let mut es: Vec<Expr> = Vec::new();
            let mut cs: Vec<(String, DataType)> = Vec::new();
            let ghost exv = ex@;
            let ghost namev = name@;
            es.push(ex);
            cs.push((name, dt));
            proof {
                assert(es.deep_view() =~= seq![exv]);
                assert(cs.deep_view() =~= seq![(namev, dt)]);
                assert(seq![exv] + Seq::<ExprV>::empty() =~= seq![exv]);
                assert(seq![(namev, dt)] + Seq::<(Seq<char>, DataType)>::empty() =~= seq![
                    (namev, dt),
                ]);
            }
            Ok((es, cs))
        },
        SelectItem::Wildcard => {
            let cols = schema.columns();
            let n = cols.len();
            let mut es: Vec<Expr> = Vec::new();
            let mut cs: Vec<(String, DataType)> = Vec::new();
            let ghost sv = schema@;
            proof {
                assert(cols.deep_view() == sv);
                assert(es.deep_view() =~= Seq::new(sv.len(), |j: int| ExprV::Column(sv[j].name))
                    .take(0));
                assert(cs.deep_view() =~= Seq::new(
                    sv.len(),
                    |j: int| (sv[j].name, sv[j].datatype),
                ).take(0));
            }
            for k in 0..n
                invariant
                    sv == schema@,
                    cols.deep_view() == sv,
                    n == cols.len(),
                    n == sv.len(),
                    es.deep_view() == Seq::new(
                        sv.len(),
                        |j: int| ExprV::Column(sv[j].name),
                    ).take(k as int),
                    cs.deep_view() == Seq::new(
                        sv.len(),
                        |j: int| (sv[j].name, sv[j].datatype),
                    ).take(k as int),
            {
                proof {
                    assert(cols.deep_view()[k as int] == sv[k as int]);
                    assert(es.deep_view().len() == es@.len());
                    assert(cs.deep_view().len() == cs@.len());
                }
                let name = cols[k].name.clone();
                let dt = cols[k].datatype;
                let ghost prev_es = es@;
                let ghost prev_cs = cs@;
                es.push(Expr::Column(name.clone()));
                cs.push((name, dt));
                proof {
                    assert(es@.len() == prev_es.len() + 1);
                    assert(forall|j: int| 0 <= j < prev_es.len() ==> es@[j] == prev_es[j]);
                    assert(cs@.len() == prev_cs.len() + 1);
                    assert(forall|j: int| 0 <= j < prev_cs.len() ==> cs@[j] == prev_cs[j]);
                    assert(es.deep_view() =~= Seq::new(
                        sv.len(),
                        |j: int| ExprV::Column(sv[j].name),
                    ).take(k + 1));
                    assert(cs.deep_view() =~= Seq::new(
                        sv.len(),
                        |j: int| (sv[j].name, sv[j].datatype),
                    ).take(k + 1));
                }
            }
            proof {
                assert(Seq::new(sv.len(), |j: int| ExprV::Column(sv[j].name)).take(n as int)
                    =~= Seq::new(sv.len(), |j: int| ExprV::Column(sv[j].name)));
                assert(Seq::new(sv.len(), |j: int| (sv[j].name, sv[j].datatype)).take(n as int)
                    =~= Seq::new(sv.len(), |j: int| (sv[j].name, sv[j].datatype)));
                assert(es.deep_view() + Seq::<ExprV>::empty() =~= es.deep_view());
                assert(cs.deep_view() + Seq::<(Seq<char>, DataType)>::empty() =~= cs.deep_view());
            }
            Ok((es, cs))
        },
        SelectItem::QualifiedWildcard => Err(
            Error::PlanError(
                PlanError::Unimplemented(UnimplementedFeature::ProjectionQualifiedWildcard),
            ),
        ),
    }
}

/// A projection item list splits at its head.
proof fn lemma_proj_without_from_step(items: Seq<SelectItem>, i: int)
    requires
        0 <= i < items.len(),
    ensures
        spec_proj_without_from(items, i) == match spec_proj_without_from(seq![items[i]], 0) {
            Err(e) => Err::<(Seq<ExprV>, Seq<(Seq<char>, DataType)>), ErrorV>(e),
            Ok((es, cs)) => match spec_proj_without_from(items, i + 1) {
                Err(e) => Err(e),
                Ok((res, rcs)) => Ok((es + res, cs + rcs)),
            },
        },
{
    let single = seq![items[i]];
    assert(single[0] == items[i]);
    assert(spec_proj_without_from(single, 1) == Ok::<
        (Seq<ExprV>, Seq<(Seq<char>, DataType)>),
        ErrorV,
    >((Seq::empty(), Seq::empty())));
    match spec_proj_without_from(single, 0) {
        Err(_) => {},
        Ok((es, cs)) => {
            assert(es + Seq::<ExprV>::empty() =~= es);
            assert(cs + Seq::<(Seq<char>, DataType)>::empty() =~= cs);
            match spec_proj_without_from(items, i + 1) {
                Err(_) => {},
                Ok((res, rcs)) => {},
            }
        },
    }
}

/// A projection item list splits at its head.
proof fn lemma_proj_with_from_step(schema: Seq<ColumnV>, items: Seq<SelectItem>, i: int)
    requires
        0 <= i < items.len(),
    ensures
        spec_proj_with_from(schema, items, i) == match spec_proj_with_from(
            schema,
            seq![items[i]],
            0,
        ) {
            Err(e) => Err::<(Seq<ExprV>, Seq<(Seq<char>, DataType)>), ErrorV>(e),
            Ok((es, cs)) => match spec_proj_with_from(schema, items, i + 1) {
                Err(e) => Err(e),
                Ok((res, rcs)) => Ok((es + res, cs + rcs)),
            },
        },
{
    let single = seq![items[i]];
    assert(single[0] == items[i]);
    assert(spec_proj_with_from(schema, single, 1) == Ok::<
        (Seq<ExprV>, Seq<(Seq<char>, DataType)>),
        ErrorV,
    >((Seq::empty(), Seq::empty())));
    match spec_proj_with_from(schema, single, 0) {
        Err(_) => {},
        Ok((es, cs)) => {
            assert(es + Seq::<ExprV>::empty() =~= es);
            assert(cs + Seq::<(Seq<char>, DataType)>::empty() =~= cs);
        },
    }
}

/// Translate a whole projection list of a `FROM`-less query.
fn proj_without_from(items: &Vec<SelectItem>) -> (r: Result<
    (Vec<Expr>, Vec<(String, DataType)>),
    Error,
>)
    ensures
        match r {
            Ok(p) => spec_proj_without_from(items@, 0) == Ok::<
                (Seq<ExprV>, Seq<(Seq<char>, DataType)>),
                ErrorV,
            >(p.deep_view()),
            Err(err) => spec_proj_without_from(items@, 0) == Err::<
                (Seq<ExprV>, Seq<(Seq<char>, DataType)>),
                ErrorV,
            >(err@),
        },
{
    let n = items.len();
    let mut es: Vec<Expr> = Vec::new();
    let mut cs: Vec<(String, DataType)> = Vec::new();
    proof {
        assert(es.deep_view() =~= Seq::<ExprV>::empty());
        assert(cs.deep_view() =~= Seq::<(Seq<char>, DataType)>::empty());
        match spec_proj_without_from(items@, 0) {
            Err(_) => {},
            Ok((res, rcs)) => {
                assert(es.deep_view() + res =~= res);
                assert(cs.deep_view() + rcs =~= rcs);
            },
        }
    }
    for i in 0..n
        invariant
            n == items.len(),
            spec_proj_without_from(items@, 0) == match spec_proj_without_from(items@, i as int) {
                Err(e) => Err::<(Seq<ExprV>, Seq<(Seq<char>, DataType)>), ErrorV>(e),
                Ok((res, rcs)) => Ok((es.deep_view() + res, cs.deep_view() + rcs)),
            },
    {
        proof {
            lemma_proj_without_from_step(items@, i as int);
        }
        match proj_item_without_from(&items[i]) {
            Err(e) => {
                return Err(e);
            },
            Ok(p) => {
                let (mut pes, mut pcs) = p;
                let ghost pes_v = pes.deep_view();
                let ghost pcs_v = pcs.deep_view();
                let ghost es_v = es.deep_view();
                let ghost cs_v = cs.deep_view();
                proof {
                    assert(es@.len() == es_v.len());
                    assert(cs@.len() == cs_v.len());
                    assert(pes@.len() == pes_v.len());
                    assert(pcs@.len() == pcs_v.len());
                }
                let ghost es_old = es@;
                let ghost pes_old = pes@;
                es.append(&mut pes);
                let ghost cs_old = cs@;
                let ghost pcs_old = pcs@;
                cs.append(&mut pcs);
                proof {
                    assert(es@ =~= es_old + pes_old);
                    assert(cs@ =~= cs_old + pcs_old);
                    assert(es.deep_view() =~= es_v + pes_v);
                    assert(cs.deep_view() =~= cs_v + pcs_v);
                    match spec_proj_without_from(items@, i + 1) {
                        Err(_) => {},
                        Ok((res, rcs)) => {
                            assert((es_v + pes_v) + res =~= es_v + (pes_v + res));
                            assert((cs_v + pcs_v) + rcs =~= cs_v + (pcs_v + rcs));
                        },
                    }
                }
            },
        }
    }
    proof {
        match spec_proj_without_from(items@, n as int) {
            Err(_) => {
                assert(false);
            },
            Ok((res, rcs)) => {
                assert(es.deep_view() + res =~= es.deep_view());
                assert(cs.deep_view() + rcs =~= cs.deep_view());
            },
        }
    }
    Ok((es, cs))
}

/// Translate a whole projection list of a single-table query.
fn proj_with_from(schema: &Schema, items: &Vec<SelectItem>) -> (r: Result<
    (Vec<Expr>, Vec<(String, DataType)>),
    Error,
>)
    ensures
        match r {
            Ok(p) => spec_proj_with_from(schema@, items@, 0) == Ok::<
                (Seq<ExprV>, Seq<(Seq<char>, DataType)>),
                ErrorV,
            >(p.deep_view()),
            Err(err) => spec_proj_with_from(schema@, items@, 0) == Err::<
                (Seq<ExprV>, Seq<(Seq<char>, DataType)>),
                ErrorV,
            >(err@),
        },
{
    let n = items.len();
    let mut es: Vec<Expr> = Vec::new();
    let mut cs: Vec<(String, DataType)> = Vec::new();
    proof {
        assert(es.deep_view() =~= Seq::<ExprV>::empty());
        assert(cs.deep_view() =~= Seq::<(Seq<char>, DataType)>::empty());
        match spec_proj_with_from(schema@, items@, 0) {
            Err(_) => {},
            Ok((res, rcs)) => {
                assert(es.deep_view() + res =~= res);
                assert(cs.deep_view() + rcs =~= rcs);
            },
        }
    }
    for i in 0..n
        invariant
            n == items.len(),
            spec_proj_with_from(schema@, items@, 0) == match spec_proj_with_from(
                schema@,
                items@,
                i as int,
            ) {
                Err(e) => Err::<(Seq<ExprV>, Seq<(Seq<char>, DataType)>), ErrorV>(e),
                Ok((res, rcs)) => Ok((es.deep_view() + res, cs.deep_view() + rcs)),
            },
    {
        proof {
            lemma_proj_with_from_step(schema@, items@, i as int);
        }
        match proj_item_with_from(schema, &items[i]) {
            Err(e) => {
                return Err(e);
            },
            Ok(p) => {
                let (mut pes, mut pcs) = p;
                let ghost pes_v = pes.deep_view();
                let ghost pcs_v = pcs.deep_view();
                let ghost es_v = es.deep_view();
                let ghost cs_v = cs.deep_view();
                proof {
                    assert(es@.len() == es_v.len());
                    assert(cs@.len() == cs_v.len());
                    assert(pes@.len() == pes_v.len());
                    assert(pcs@.len() == pcs_v.len());
                }
                let ghost es_old = es@;
                let ghost pes_old = pes@;
                es.append(&mut pes);
                let ghost cs_old = cs@;
                let ghost pcs_old = pcs@;
                cs.append(&mut pcs);
                proof {
                    assert(es@ =~= es_old + pes_old);
                    assert(cs@ =~= cs_old + pcs_old);
                    assert(es.deep_view() =~= es_v + pes_v);
                    assert(cs.deep_view() =~= cs_v + pcs_v);
                    match spec_proj_with_from(schema@, items@, i + 1) {
                        Err(_) => {},
                        Ok((res, rcs)) => {
                            assert((es_v + pes_v) + res =~= es_v + (pes_v + res));
                            assert((cs_v + pcs_v) + rcs =~= cs_v + (pcs_v + rcs));
                        },
                    }
                }
            },
        }
    }
    proof {
        match spec_proj_with_from(schema@, items@, n as int) {
            Err(_) => {
                assert(false);
            },
            Ok((res, rcs)) => {
                assert(es.deep_view() + res =~= es.deep_view());
                assert(cs.deep_view() + rcs =~= cs.deep_view());
            },
        }
    }
    Ok((es, cs))
}

/// Lower a query statement.
pub fn convert(catalog: &Catalog, stmt: &Statement) -> (r: Result<LogicalPlan, Error>)
    requires
        stmt is Query,
    ensures
        res_view(r) == spec_convert_query(catalog@, *stmt),
{
    match stmt {
        Statement::Query { query, display } => {
            match &query.body {
                crate::ast::SetExpr::Select(select) => {
                    if select.from.len() == 0 {
                        select_without_from(select, &query.limit, &query.offset, display)
                    } else if select.from.len() == 1 {
                        select_with_from(catalog, select, &query.limit, &query.offset, display)
                    } else {
                        Err(
                            Error::PlanError(
                                PlanError::Unimplemented(
                                    UnimplementedFeature::Statement {
                                        statement: display.clone(),
                                    },
                                ),
                            ),
                        )
                    }
                },
                _ => Err(
                    Error::PlanError(
                        PlanError::Unimplemented(
                            UnimplementedFeature::Statement { statement: display.clone() },
                        ),
                    ),
                ),
            }
        },
        _ => {
            proof {
                assert(false);
            }
            Err(Error::StorageError { message: String::new() })
        },
    }
}

/// Lower a `SELECT` with no `FROM` item.
fn select_without_from(
    select: &Select,
    limit: &Option<SqlExpr>,
    offset: &Option<SqlExpr>,
    display: &String,
) -> (r: Result<LogicalPlan, Error>)
    ensures
        res_view(r) == spec_select_without_from(*select, *limit, *offset, display@),
{
    let base = match &select.selection {
        None => LogicalPlan::OneRowPlaceholder,
        Some(e) => {
            let ex = match convert_expr(e) {
                Err(pe) => {
                    return Err(Error::PlanError(pe));
                },
                Ok(ex) => ex,
            };
            if !ex.is_constant() {
                return Err(
                    Error::PlanError(PlanError::NonConstantExprWithoutFrom { expr: ex }),
                );
            }
            let ghost exv = ex@;
            let b = LogicalPlan::Filter {
                predicate: ex,
                input: Box::new(LogicalPlan::OneRowPlaceholder),
            };
            proof {
                assert((LogicalPlan::OneRowPlaceholder)@ == LogicalPlanV::OneRowPlaceholder);
                assert(b@ == (LogicalPlanV::Filter {
                    predicate: exv,
                    input: Box::new(LogicalPlanV::OneRowPlaceholder),
                }));
            }
            b
        },
    };
    let based2 = match apply_limit_offset(base, limit, offset) {
        Err(e) => {
            return Err(e);
        },
        Ok(p) => p,
    };
    if select.projection.len() == 0 {
        return Err(
            Error::PlanError(
                PlanError::Unimplemented(
                    UnimplementedFeature::Statement { statement: display.clone() },
                ),
            ),
        );
    }
    match proj_without_from(&select.projection) {
        Err(e) => Err(e),
        Ok(p) => {
            let (es, cs) = p;
            let schema = Schema::new(cs);
            Ok(LogicalPlan::Projection { expr: es, schema, input: Box::new(based2) })
        },
    }
}

/// Lower a `SELECT` over exactly one `FROM` item.
fn select_with_from(
    catalog: &Catalog,
    select: &Select,
    limit: &Option<SqlExpr>,
    offset: &Option<SqlExpr>,
    display: &String,
) -> (r: Result<LogicalPlan, Error>)
    requires
        select.from@.len() == 1,
    ensures
        res_view(r) == spec_select_with_from(catalog@, *select, *limit, *offset, display@),
{
    let twj = &select.from[0];
    if twj.has_joins {
        return Err(
            Error::PlanError(
                PlanError::Unimplemented(
                    UnimplementedFeature::Statement { statement: display.clone() },
                ),
            ),
        );
    }
    let name = match &twj.relation {
        TableFactor::Other(_) => {
            return Err(
                Error::PlanError(
                    PlanError::Unimplemented(
                        UnimplementedFeature::Statement { statement: display.clone() },
                    ),
                ),
            );
        },
        TableFactor::Table(name) => name,
    };
    let nm = match object_name_to_table_name(name) {
        Err(pe) => {
            return Err(Error::PlanError(pe));
        },
        Ok(nm) => nm,
    };
    proof {
        lemma_table_index_of(catalog@, nm@);
    }
    let table = match catalog.get_table(nm.as_str()) {
        Err(e) => {
            return Err(Error::CatalogError(e));
        },
        Ok(t) => t,
    };
    let schema = table.schema();
    let base = match &select.selection {
        None => LogicalPlan::TableScan { name: nm.clone() },
        Some(e) => {
            let ex = match convert_expr(e) {
                Err(pe) => {
                    return Err(Error::PlanError(pe));
                },
                Ok(ex) => ex,
            };
            let ghost exv = ex@;
            let scan = LogicalPlan::TableScan { name: nm.clone() };
            let ghost scanv = scan@;
            let b = LogicalPlan::Filter { predicate: ex, input: Box::new(scan) };
            proof {
                assert(scanv == (LogicalPlanV::TableScan { name: nm@ }));
                assert(b@ == (LogicalPlanV::Filter {
                    predicate: exv,
                    input: Box::new(scanv),
                }));
            }
            b
        },
    };
    let based2 = match apply_limit_offset(base, limit, offset) {
        Err(e) => {
            return Err(e);
        },
        Ok(p) => p,
    };
    if select.projection.len() == 0 {
        return Err(
            Error::PlanError(
                PlanError::Unimplemented(
                    UnimplementedFeature::Statement { statement: display.clone() },
                ),
            ),
        );
    }
    match proj_with_from(schema, &select.projection) {
        Err(e) => Err(e),
        Ok(p) => {
            let (es, cs) = p;
            let out_schema = Schema::new(cs);
            Ok(LogicalPlan::Projection { expr: es, schema: out_schema, input: Box::new(based2) })
        },
    }
}

} // verus!
