//! Translating `VALUES` rows into tuples, with schema checks.

use crate::ast::SqlExpr;
use crate::catalog::error::CatalogErrorV;
use crate::catalog::schema::ColumnV;
use crate::catalog::{catalog_contains, lemma_table_index_of, spec_table_index_of, Catalog, TableV};
use crate::data::tuple::Tuple;
use crate::data::types::{spec_datatype, DataVal};
use crate::error::{res_view, Error, ErrorV};
use crate::expr::{Expr, ExprV};
use crate::plan::error::{
    ExprEvaluationError, ExprEvaluationErrorV, PlanError, PlanErrorV,
};
use crate::plan::expr::{convert_expr, spec_convert_expr};
use vstd::prelude::*;

verus! {

/// Translate the cells of one `VALUES` row from position `i` on: each cell
/// must be a literal of its column's datatype.
pub open spec fn spec_row_cells(
    tname: Seq<char>,
    schema: Seq<ColumnV>,
    row: Seq<SqlExpr>,
    i: int,
) -> Result<Seq<DataVal>, ErrorV>
    recommends
        row.len() == schema.len(),
    decreases schema.len() - i,
{
    if i < 0 || i >= schema.len() {
        Ok(Seq::empty())
    } else {
        match spec_convert_expr(row[i]) {
            Err(pe) => Err(ErrorV::PlanError(pe)),
            Ok(ex) => match ex {
                ExprV::Literal(d) => if spec_datatype(d) != schema[i].datatype {
                    Err(
                        ErrorV::PlanError(
                            PlanErrorV::MismatchedType {
                                table: tname,
                                column_idx: i,
                                expected: schema[i].datatype,
                                found: spec_datatype(d),
                            },
                        ),
                    )
                } else {
                    match spec_row_cells(tname, schema, row, i + 1) {
                        Err(e) => Err(e),
                        Ok(rest) => Ok(seq![d] + rest),
                    }
                },
                _ => Err(
                    ErrorV::PlanError(
                        PlanErrorV::ExprEvaluationError(
                            ExprEvaluationErrorV::ExprIsNotConstant { expr: ex },
                        ),
                    ),
                ),
            },
        }
    }
}

/// Translate `VALUES` rows from position `i` on: each row must have one
/// cell per column.
pub open spec fn spec_rows_to_tuples(
    tname: Seq<char>,
    schema: Seq<ColumnV>,
    rows: Seq<Vec<SqlExpr>>,
    i: int,
) -> Result<Seq<Seq<DataVal>>, ErrorV>
    decreases rows.len() - i,
{
    if i < 0 || i >= rows.len() {
        Ok(Seq::empty())
    } else if rows[i]@.len() != schema.len() {
        Err(
            ErrorV::PlanError(
                PlanErrorV::MismatchedNumberColumns {
                    table: tname,
                    expected: schema.len() as int,
                    found: rows[i]@.len() as int,
                },
            ),
        )
    } else {
        match spec_row_cells(tname, schema, rows[i]@, 0) {
            Err(e) => Err(e),
            Ok(t) => match spec_rows_to_tuples(tname, schema, rows, i + 1) {
                Err(e) => Err(e),
                Ok(rest) => Ok(seq![t] + rest),
            },
        }
    }
}

/// Translate a `VALUES` source against the named table: *table-missing*
/// when the table is not registered, then row by row.
pub open spec fn spec_values_to_tuples(
    catalog: Seq<TableV>,
    tname: Seq<char>,
    rows: Seq<Vec<SqlExpr>>,
) -> Result<Seq<Seq<DataVal>>, ErrorV> {
    if !catalog_contains(catalog, tname) {
        Err(ErrorV::CatalogError(CatalogErrorV::TableDoesNotExist { name: tname }))
    } else {
        spec_rows_to_tuples(tname, catalog[spec_table_index_of(catalog, tname)].schema, rows, 0)
    }
}

/// Convert `values` rows into tuples, with schema checks against the named
/// table.
pub fn values_to_tuples(catalog: &Catalog, table_name: &str, rows: &Vec<Vec<SqlExpr>>) -> (r:
    Result<Vec<Tuple>, Error>)
    ensures
        res_view(r) == spec_values_to_tuples(catalog@, table_name@, rows@),
{
    proof {
        lemma_table_index_of(catalog@, table_name@);
    }
    let table = match catalog.get_table(table_name) {
        Err(e) => {
            return Err(Error::CatalogError(e));
        },
        Ok(t) => t,
    };
    let schema = table.schema();
    let ghost sv = schema@;
    let n_columns = table.n_columns();
    let nrows = rows.len();
    let mut tuples: Vec<Tuple> = Vec::new();
    proof {
        assert(tuples.deep_view() =~= Seq::<Seq<DataVal>>::empty());
        match spec_rows_to_tuples(table_name@, sv, rows@, 0) {
            Err(_) => {},
            Ok(rest) => {
                assert(tuples.deep_view() + rest =~= rest);
            },
        }
    }
    for i in 0..nrows
        invariant
            nrows == rows.len(),
            schema@ == sv,
            sv == catalog@[spec_table_index_of(catalog@, table_name@)].schema,
            catalog_contains(catalog@, table_name@),
            n_columns == sv.len(),
            spec_values_to_tuples(catalog@, table_name@, rows@) == match spec_rows_to_tuples(
                table_name@,
                sv,
                rows@,
                i as int,
            ) {
                Err(e) => Err::<Seq<Seq<DataVal>>, ErrorV>(e),
                Ok(rest) => Ok(tuples.deep_view() + rest),
            },
    {
        let row = &rows[i];
        if row.len() != n_columns {
            return Err(
                Error::PlanError(
                    PlanError::MismatchedNumberColumns {
                        table: table_name.to_owned(),
                        expected: n_columns,
                        found: row.len(),
                    },
                ),
            );
        }
        let cols = schema.columns();
        let mut cells: Vec<crate::data::types::Data> = Vec::new();
        proof {
            assert(cells.deep_view() =~= Seq::<DataVal>::empty());
            match spec_row_cells(table_name@, sv, row@, 0) {
                Err(_) => {},
                Ok(rest) => {
                    assert(cells.deep_view() + rest =~= rest);
                },
            }
        }
        for k in 0..n_columns
            invariant
                nrows == rows.len(),
                i < nrows,
                row == &rows@[i as int],
                sv == catalog@[spec_table_index_of(catalog@, table_name@)].schema,
                catalog_contains(catalog@, table_name@),
                n_columns == sv.len(),
                row@.len() == n_columns,
                cols.deep_view() == sv,
                spec_values_to_tuples(catalog@, table_name@, rows@) == match spec_rows_to_tuples(
                    table_name@,
                    sv,
                    rows@,
                    i as int,
                ) {
                    Err(e) => Err::<Seq<Seq<DataVal>>, ErrorV>(e),
                    Ok(rest) => Ok(tuples.deep_view() + rest),
                },
                spec_rows_to_tuples(table_name@, sv, rows@, i as int) == match spec_row_cells(
                    table_name@,
                    sv,
                    row@,
                    k as int,
                ) {
                    Err(e) => Err::<Seq<Seq<DataVal>>, ErrorV>(e),
                    Ok(rest) => match spec_rows_to_tuples(table_name@, sv, rows@, i + 1) {
                        Err(e) => Err::<Seq<Seq<DataVal>>, ErrorV>(e),
                        Ok(more) => Ok(seq![cells.deep_view() + rest] + more),
                    },
                },
        {
            match convert_expr(&row[k]) {
                Err(pe) => {
                    return Err(Error::PlanError(pe));
                },
                Ok(ex) => match ex {
                    Expr::Literal(d) => {
                        let dt = d.datatype();
                        proof {
                            assert(cols.deep_view()[k as int] == sv[k as int]);
                        }
                        if dt != cols[k].datatype {
                            return Err(
                                Error::PlanError(
                                    PlanError::MismatchedType {
                                        table: table_name.to_owned(),
                                        column_idx: k,
                                        expected: cols[k].datatype,
                                        found: dt,
                                    },
                                ),
                            );
                        }
                        proof {
                            assert(cells.deep_view().len() == cells@.len());
                        }
                        let ghost dv = d@;
                        let ghost prev = cells@;
                        cells.push(d);
                        proof {
                            assert(cells@.len() == prev.len() + 1);
                            assert(forall|j: int| 0 <= j < prev.len() ==> cells@[j] == prev[j]);
                            let cd = cells.deep_view();
                            assert(cd[prev.len() as int] == dv);
                            match spec_row_cells(table_name@, sv, row@, k + 1) {
                                Err(_) => {},
                                Ok(rest2) => {
                                    assert((Seq::new(
                                        prev.len() as nat,
                                        |j: int| prev[j].deep_view(),
                                    ) + (seq![dv] + rest2)) =~= (cd + rest2));
                                },
                            }
                        }
                    },
                    other => {
                        return Err(
                            Error::PlanError(
                                PlanError::ExprEvaluationError(
                                    ExprEvaluationError::ExprIsNotConstant { expr: other },
                                ),
                            ),
                        );
                    },
                },
            }
        }
        proof {
            assert(spec_row_cells(table_name@, sv, row@, n_columns as int) == Ok::<
                Seq<DataVal>,
                ErrorV,
            >(Seq::empty()));
            assert(cells.deep_view() + Seq::<DataVal>::empty() =~= cells.deep_view());
        }
        let t = Tuple::new(cells);
        proof {
            assert(tuples.deep_view().len() == tuples@.len());
        }
        let ghost tv = t@;
        let ghost prevt = tuples@;
        tuples.push(t);
        proof {
            assert(tuples@.len() == prevt.len() + 1);
            assert(forall|j: int| 0 <= j < prevt.len() ==> tuples@[j] == prevt[j]);
            let td = tuples.deep_view();
            assert(td[prevt.len() as int] == tv);
            match spec_rows_to_tuples(table_name@, sv, rows@, i + 1) {
                Err(_) => {},
                Ok(more) => {
                    assert((Seq::new(prevt.len() as nat, |j: int| prevt[j].deep_view()) + (seq![tv]
                        + more)) =~= (td + more));
                },
            }
        }
    }
    proof {
        assert(spec_rows_to_tuples(table_name@, sv, rows@, nrows as int) == Ok::<
            Seq<Seq<DataVal>>,
            ErrorV,
        >(Seq::empty()));
        assert(tuples.deep_view() + Seq::<Seq<DataVal>>::empty() =~= tuples.deep_view());
    }
    Ok(tuples)
}

} // verus!
