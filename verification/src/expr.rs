//! Expressions and the operators that combine typed scalars.
//!
//! An expression is a column reference, a literal scalar, or a binary
//! operation.  Typing and evaluation follow the same rules: both operand
//! datatypes must be equal; comparisons yield booleans, `+`/`-` are defined
//! on 64-bit integers (wrapping on overflow, in two's complement), and
//! `AND`/`OR` on booleans.  Floats order by the IEEE 754 total order on
//! their bit patterns; float arithmetic stays outside the verified core and
//! is reported as *unsupported-type-for-op*.

use crate::catalog::error::{CatalogError, CatalogErrorV};
use crate::catalog::schema::{
    lemma_index_of, schema_contains, spec_column_names, spec_index_of, ColumnV, Schema,
};
use crate::data::tuple::{tuple_conforms, Tuple};
use crate::data::types::{spec_datatype, Data, DataType, DataVal};
use crate::error::{res_view, Error, ErrorV};
use crate::plan::error::{ExprEvaluationError, ExprEvaluationErrorV, PlanError};
use crate::text::{lex_lt_chars, str_lt};
use vstd::prelude::*;

verus! {

/// The binary operators of the expression language.
#[derive(Debug, Copy, Clone, PartialEq, Eq, Structural)]
pub enum Operator {
    Gt,
    GtEq,
    Lt,
    LtEq,
    Eq,
    NotEq,
    Plus,
    Minus,
    And,
    Or,
}

impl View for Operator {
    type V = Operator;

    open spec fn view(&self) -> Operator {
        *self
    }
}

impl DeepView for Operator {
    type V = Operator;

    open spec fn deep_view(&self) -> Operator {
        *self
    }
}

/// An expression: a named column, a literal scalar, or a binary operation.
#[derive(Debug)]
pub enum Expr {
    /// A named column.
    Column(String),
    /// A literal value.
    Literal(Data),
    /// A binary operation.
    BinaryExpr { left: Box<Expr>, op: Operator, right: Box<Expr> },
}

/// The mathematical value of an [`Expr`].
pub enum ExprV {
    Column(Seq<char>),
    Literal(DataVal),
    BinaryExpr { left: Box<ExprV>, op: Operator, right: Box<ExprV> },
}

/// The mathematical value of an expression tree.
pub open spec fn spec_expr_view(e: Expr) -> ExprV
    decreases e,
{
    match e {
        Expr::Column(name) => ExprV::Column(name@),
        Expr::Literal(d) => ExprV::Literal(d@),
        Expr::BinaryExpr { left, op, right } => ExprV::BinaryExpr {
            left: Box::new(spec_expr_view(*left)),
            op: op,
            right: Box::new(spec_expr_view(*right)),
        },
    }
}

impl View for Expr {
    type V = ExprV;

    open spec fn view(&self) -> ExprV {
        spec_expr_view(*self)
    }
}

impl DeepView for Expr {
    type V = ExprV;

    open spec fn deep_view(&self) -> ExprV {
        self.view()
    }
}

impl Clone for Expr {
    fn clone(&self) -> (r: Self)
        ensures
            r@ == self@,
        decreases self,
    {
        match self {
            Expr::Column(name) => Expr::Column(name.clone()),
            Expr::Literal(d) => Expr::Literal(d.clone()),
            Expr::BinaryExpr { left, op, right } => Expr::BinaryExpr {
                left: Box::new((**left).clone()),
                op: *op,
                right: Box::new((**right).clone()),
            },
        }
    }
}

/// The key of the IEEE 754 total order: mapping every bit pattern through
/// this function turns float comparison into unsigned comparison.
pub open spec fn spec_f64_key(bits: u64) -> u64 {
    if bits & 0x8000_0000_0000_0000 != 0 {
        !bits
    } else {
        bits | 0x8000_0000_0000_0000
    }
}

/// Strict order on two scalars of the same datatype: `false < true`,
/// numeric order for integers and timestamps, the IEEE 754 total order for
/// floats, lexicographic code-point order for strings.
pub open spec fn data_lt(l: DataVal, r: DataVal) -> bool
    recommends
        spec_datatype(l) == spec_datatype(r),
{
    match (l, r) {
        (DataVal::Bool(a), DataVal::Bool(b)) => !a && b,
        (DataVal::Int64(a), DataVal::Int64(b)) => a < b,
        (DataVal::Float64(a), DataVal::Float64(b)) => spec_f64_key(a) < spec_f64_key(b),
        (DataVal::Timestamp(a), DataVal::Timestamp(b)) => a < b,
        (DataVal::String(a), DataVal::String(b)) => lex_lt_chars(a, b),
        _ => false,
    }
}

/// What `op` returns on operands of datatypes `l` and `r`, or why it cannot.
pub open spec fn spec_datatype_of_operation(op: Operator, l: DataType, r: DataType) -> Result<
    DataType,
    ExprEvaluationErrorV,
> {
    if l != r {
        Err(ExprEvaluationErrorV::DoOpOnDiffTypes { lhs: l, op, rhs: r })
    } else {
        match op {
            Operator::Gt | Operator::GtEq | Operator::Lt | Operator::LtEq | Operator::Eq
                | Operator::NotEq => Ok(DataType::Bool),
            Operator::Plus | Operator::Minus => if l == DataType::Int64 {
                Ok(l)
            } else {
                Err(ExprEvaluationErrorV::UnsupportedTypeForOp { datatype: l, op })
            },
            Operator::And | Operator::Or => if l == DataType::Bool {
                Ok(DataType::Bool)
            } else {
                Err(ExprEvaluationErrorV::UnsupportedTypeForOp { datatype: l, op })
            },
        }
    }
}

/// What `op` returns on operand values `l` and `r`, or why it cannot.
pub open spec fn spec_operate(op: Operator, l: DataVal, r: DataVal) -> Result<
    DataVal,
    ExprEvaluationErrorV,
> {
    let lt = spec_datatype(l);
    let rt = spec_datatype(r);
    if lt != rt {
        Err(ExprEvaluationErrorV::DoOpOnDiffTypes { lhs: lt, op, rhs: rt })
    } else {
        match op {
            Operator::Gt => Ok(DataVal::Bool(data_lt(r, l))),
            Operator::GtEq => Ok(DataVal::Bool(!data_lt(l, r))),
            Operator::Lt => Ok(DataVal::Bool(data_lt(l, r))),
            Operator::LtEq => Ok(DataVal::Bool(!data_lt(r, l))),
            Operator::Eq => Ok(DataVal::Bool(l == r)),
            Operator::NotEq => Ok(DataVal::Bool(l != r)),
            Operator::Plus => match (l, r) {
                (DataVal::Int64(a), DataVal::Int64(b)) => Ok(
                    DataVal::Int64(vstd::wrapping::i64_specs::wrapping_add(a, b)),
                ),
                _ => Err(ExprEvaluationErrorV::UnsupportedTypeForOp { datatype: lt, op }),
            },
            Operator::Minus => match (l, r) {
                (DataVal::Int64(a), DataVal::Int64(b)) => Ok(
                    DataVal::Int64(vstd::wrapping::i64_specs::wrapping_sub(a, b)),
                ),
                _ => Err(ExprEvaluationErrorV::UnsupportedTypeForOp { datatype: lt, op }),
            },
            Operator::And => match (l, r) {
                (DataVal::Bool(a), DataVal::Bool(b)) => Ok(DataVal::Bool(a && b)),
                _ => Err(ExprEvaluationErrorV::UnsupportedTypeForOp { datatype: lt, op }),
            },
            Operator::Or => match (l, r) {
                (DataVal::Bool(a), DataVal::Bool(b)) => Ok(DataVal::Bool(a || b)),
                _ => Err(ExprEvaluationErrorV::UnsupportedTypeForOp { datatype: lt, op }),
            },
        }
    }
}

/// Wrap an expression-evaluation error the way the pipeline reports it.
pub open spec fn wrap_eval_err(e: ExprEvaluationErrorV) -> ErrorV {
    ErrorV::PlanError(crate::plan::error::PlanErrorV::ExprEvaluationError(e))
}

/// An expression is constant when it references no column.
pub open spec fn spec_is_constant(e: ExprV) -> bool
    decreases e,
{
    match e {
        ExprV::Column(_) => false,
        ExprV::Literal(_) => true,
        ExprV::BinaryExpr { left, op, right } => spec_is_constant(*left) && spec_is_constant(
            *right,
        ),
    }
}

/// Evaluate an expression against one row: columns index the row through
/// the schema, literals return their scalar, binary nodes evaluate both
/// sides and apply the operator.
pub open spec fn spec_eval(e: ExprV, s: Seq<ColumnV>, t: Seq<DataVal>) -> Result<DataVal, ErrorV>
    decreases e,
{
    match e {
        ExprV::Column(name) => if schema_contains(s, name) {
            Ok(t[spec_index_of(s, name)])
        } else {
            Err(
                ErrorV::CatalogError(
                    CatalogErrorV::ColumnDoesNotExist {
                        column: name,
                        candidate: spec_column_names(s),
                    },
                ),
            )
        },
        ExprV::Literal(d) => Ok(d),
        ExprV::BinaryExpr { left, op, right } => match spec_eval(*left, s, t) {
            Err(e) => Err(e),
            Ok(l) => match spec_eval(*right, s, t) {
                Err(e) => Err(e),
                Ok(r) => match spec_operate(op, l, r) {
                    Err(e) => Err(wrap_eval_err(e)),
                    Ok(v) => Ok(v),
                },
            },
        },
    }
}

/// Evaluate a constant expression; a column reference is
/// *expr-is-not-constant*.
pub open spec fn spec_eval_constant(e: ExprV) -> Result<DataVal, ErrorV>
    decreases e,
{
    match e {
        ExprV::Column(_) => Err(
            wrap_eval_err(ExprEvaluationErrorV::ExprIsNotConstant { expr: e }),
        ),
        ExprV::Literal(d) => Ok(d),
        ExprV::BinaryExpr { left, op, right } => match spec_eval_constant(*left) {
            Err(e) => Err(e),
            Ok(l) => match spec_eval_constant(*right) {
                Err(e) => Err(e),
                Ok(r) => match spec_operate(op, l, r) {
                    Err(e) => Err(wrap_eval_err(e)),
                    Ok(v) => Ok(v),
                },
            },
        },
    }
}

/// The datatype of an expression over a schema: columns resolve through the
/// schema, literals report their tag, binary nodes follow the operator rule.
pub open spec fn spec_expr_datatype(e: ExprV, s: Seq<ColumnV>) -> Result<DataType, ErrorV>
    decreases e,
{
    match e {
        ExprV::Column(name) => if schema_contains(s, name) {
            Ok(s[spec_index_of(s, name)].datatype)
        } else {
            Err(
                ErrorV::CatalogError(
                    CatalogErrorV::ColumnDoesNotExist {
                        column: name,
                        candidate: spec_column_names(s),
                    },
                ),
            )
        },
        ExprV::Literal(d) => Ok(spec_datatype(d)),
        ExprV::BinaryExpr { left, op, right } => match spec_expr_datatype(*left, s) {
            Err(e) => Err(e),
            Ok(l) => match spec_expr_datatype(*right, s) {
                Err(e) => Err(e),
                Ok(r) => match spec_datatype_of_operation(op, l, r) {
                    Err(e) => Err(wrap_eval_err(e)),
                    Ok(dt) => Ok(dt),
                },
            },
        },
    }
}

/// The datatype of a constant expression; a column reference is
/// *expr-is-not-constant*.
pub open spec fn spec_datatype_of_constant(e: ExprV) -> Result<DataType, ErrorV>
    decreases e,
{
    match e {
        ExprV::Column(_) => Err(
            wrap_eval_err(ExprEvaluationErrorV::ExprIsNotConstant { expr: e }),
        ),
        ExprV::Literal(d) => Ok(spec_datatype(d)),
        ExprV::BinaryExpr { left, op, right } => match spec_datatype_of_constant(*left) {
            Err(e) => Err(e),
            Ok(l) => match spec_datatype_of_constant(*right) {
                Err(e) => Err(e),
                Ok(r) => match spec_datatype_of_operation(op, l, r) {
                    Err(e) => Err(wrap_eval_err(e)),
                    Ok(dt) => Ok(dt),
                },
            },
        },
    }
}

/// Evaluate a list of expressions against one row, stopping at the first
/// error.
pub open spec fn spec_eval_batch(es: Seq<ExprV>, s: Seq<ColumnV>, t: Seq<DataVal>) -> Result<
    Seq<DataVal>,
    ErrorV,
>
    decreases es.len(),
{
    if es.len() == 0 {
        Ok(Seq::empty())
    } else {
        match spec_eval(es[0], s, t) {
            Err(e) => Err(e),
            Ok(v) => match spec_eval_batch(es.drop_first(), s, t) {
                Err(e) => Err(e),
                Ok(rest) => Ok(seq![v] + rest),
            },
        }
    }
}

/// The IEEE 754 total-order key of a float's bit pattern.
fn f64_key(bits: u64) -> (r: u64)
    ensures
        r == spec_f64_key(bits),
{
    if bits & 0x8000_0000_0000_0000 != 0 {
        !bits
    } else {
        bits | 0x8000_0000_0000_0000
    }
}

/// Whether `a` comes strictly before `b`; both must have the same datatype.
fn data_lt_exec(a: &Data, b: &Data) -> (r: bool)
    requires
        spec_datatype(a@) == spec_datatype(b@),
    ensures
        r == data_lt(a@, b@),
{
    match (a, b) {
        (Data::Bool(x), Data::Bool(y)) => !*x && *y,
        (Data::Int64(x), Data::Int64(y)) => *x < *y,
        (Data::Float64(x), Data::Float64(y)) => f64_key(*x) < f64_key(*y),
        (Data::Timestamp(x), Data::Timestamp(y)) => *x < *y,
        (Data::String(x), Data::String(y)) => str_lt(x.as_str(), y.as_str()),
        _ => {
            proof {
                assert(false);
            }
            false
        },
    }
}

impl Operator {
    /// Apply this operator to two scalars.
    pub fn operate(&self, lhs: Data, rhs: Data) -> (r: Result<Data, Error>)
        ensures
            res_view(r) == match spec_operate(*self, lhs@, rhs@) {
                Ok(v) => Ok::<DataVal, ErrorV>(v),
                Err(e) => Err(wrap_eval_err(e)),
            },
    {
        let lhs_dt = lhs.datatype();
        let rhs_dt = rhs.datatype();
        if lhs_dt != rhs_dt {
            return Err(
                Error::PlanError(
                    PlanError::ExprEvaluationError(
                        ExprEvaluationError::DoOpOnDiffTypes { lhs: lhs_dt, op: *self, rhs: rhs_dt },
                    ),
                ),
            );
        }
        match self {
            Operator::Gt => Ok(Data::Bool(data_lt_exec(&rhs, &lhs))),
            Operator::GtEq => Ok(Data::Bool(!data_lt_exec(&lhs, &rhs))),
            Operator::Lt => Ok(Data::Bool(data_lt_exec(&lhs, &rhs))),
            Operator::LtEq => Ok(Data::Bool(!data_lt_exec(&rhs, &lhs))),
            Operator::Eq => Ok(Data::Bool(lhs.eq(&rhs))),
            Operator::NotEq => Ok(Data::Bool(!lhs.eq(&rhs))),
            Operator::Plus => match (lhs, rhs) {
                (Data::Int64(a), Data::Int64(b)) => Ok(Data::Int64(a.wrapping_add(b))),
                _ => Err(
                    Error::PlanError(
                        PlanError::ExprEvaluationError(
                            ExprEvaluationError::UnsupportedTypeForOp {
                                datatype: lhs_dt,
                                op: *self,
                            },
                        ),
                    ),
                ),
            },
            Operator::Minus => match (lhs, rhs) {
                (Data::Int64(a), Data::Int64(b)) => Ok(Data::Int64(a.wrapping_sub(b))),
                _ => Err(
                    Error::PlanError(
                        PlanError::ExprEvaluationError(
                            ExprEvaluationError::UnsupportedTypeForOp {
                                datatype: lhs_dt,
                                op: *self,
                            },
                        ),
                    ),
                ),
            },
            Operator::And => match (lhs, rhs) {
                (Data::Bool(a), Data::Bool(b)) => Ok(Data::Bool(a && b)),
                _ => Err(
                    Error::PlanError(
                        PlanError::ExprEvaluationError(
                            ExprEvaluationError::UnsupportedTypeForOp {
                                datatype: lhs_dt,
                                op: *self,
                            },
                        ),
                    ),
                ),
            },
            Operator::Or => match (lhs, rhs) {
                (Data::Bool(a), Data::Bool(b)) => Ok(Data::Bool(a || b)),
                _ => Err(
                    Error::PlanError(
                        PlanError::ExprEvaluationError(
                            ExprEvaluationError::UnsupportedTypeForOp {
                                datatype: lhs_dt,
                                op: *self,
                            },
                        ),
                    ),
                ),
            },
        }
    }

    /// The datatype this operator returns on operands of the two datatypes.
    pub fn datatype_of_operation(&self, lhs_dt: &DataType, rhs_dt: &DataType) -> (r: Result<
        DataType,
        Error,
    >)
        ensures
            res_view(r) == match spec_datatype_of_operation(*self, *lhs_dt, *rhs_dt) {
                Ok(dt) => Ok::<DataType, ErrorV>(dt),
                Err(e) => Err(wrap_eval_err(e)),
            },
    {
        if *lhs_dt != *rhs_dt {
            return Err(
                Error::PlanError(
                    PlanError::ExprEvaluationError(
                        ExprEvaluationError::DoOpOnDiffTypes {
                            lhs: *lhs_dt,
                            op: *self,
                            rhs: *rhs_dt,
                        },
                    ),
                ),
            );
        }
        match self {
            Operator::Gt | Operator::GtEq | Operator::Lt | Operator::LtEq | Operator::Eq
                | Operator::NotEq => Ok(DataType::Bool),
            Operator::Plus | Operator::Minus => {
                if *lhs_dt == DataType::Int64 {
                    Ok(*lhs_dt)
                } else {
                    Err(
                        Error::PlanError(
                            PlanError::ExprEvaluationError(
                                ExprEvaluationError::UnsupportedTypeForOp {
                                    datatype: *lhs_dt,
                                    op: *self,
                                },
                            ),
                        ),
                    )
                }
            },
            Operator::And | Operator::Or => {
                if *lhs_dt == DataType::Bool {
                    Ok(DataType::Bool)
                } else {
                    Err(
                        Error::PlanError(
                            PlanError::ExprEvaluationError(
                                ExprEvaluationError::UnsupportedTypeForOp {
                                    datatype: *lhs_dt,
                                    op: *self,
                                },
                            ),
                        ),
                    )
                }
            },
        }
    }
}

impl Expr {
    /// Whether this expression can be evaluated without a row: it holds no
    /// column reference.
    pub fn is_constant(&self) -> (r: bool)
        ensures
            r == spec_is_constant(self@),
        decreases self,
    {
        match self {
            Expr::Literal(_) => true,
            Expr::BinaryExpr { left, op, right } => left.is_constant() && right.is_constant(),
            Expr::Column(_) => false,
        }
    }

    /// Evaluate this expression against one row of `schema`.
    pub fn evaluate(&self, schema: &Schema, data: &Tuple) -> (r: Result<Data, Error>)
        requires
            data@.len() == schema@.len(),
        ensures
            res_view(r) == spec_eval(self@, schema@, data@),
        decreases self,
    {
        match self {
            Expr::Column(col_name) => {
                proof {
                    lemma_index_of(schema@, col_name@);
                }
                match schema.index_of_column(col_name.as_str()) {
                    Ok(idx) => match data.get(idx) {
                        Some(d) => Ok(d.clone()),
                        None => {
                            proof {
                                assert(false);
                            }
                            Err(Error::StorageError { message: String::new() })
                        },
                    },
                    Err(e) => Err(Error::CatalogError(e)),
                }
            },
            Expr::Literal(literal) => Ok(literal.clone()),
            Expr::BinaryExpr { left, op, right } => {
                match left.evaluate(schema, data) {
                    Err(e) => Err(e),
                    Ok(l) => match right.evaluate(schema, data) {
                        Err(e) => Err(e),
                        Ok(r2) => op.operate(l, r2),
                    },
                }
            },
        }
    }

    /// Evaluate a list of expressions against one row, stopping at the
    /// first error.
    pub fn evaluate_batch(exprs: &[Expr], schema: &Schema, data: &Tuple) -> (r: Result<
        Vec<Data>,
        Error,
    >)
        requires
            data@.len() == schema@.len(),
        ensures
            res_view(r) == spec_eval_batch(exprs.deep_view(), schema@, data@),
    {
        let n = exprs.len();
        let mut result: Vec<Data> = Vec::new();
        let ghost es = exprs.deep_view();
        proof {
            assert(es.skip(0) =~= es);
            assert(result.deep_view() =~= Seq::<DataVal>::empty());
            match spec_eval_batch(es, schema@, data@) {
                Err(_) => {},
                Ok(rest) => {
                    assert(result.deep_view() + rest =~= rest);
                },
            }
        }
        for i in 0..n
            invariant
                n == exprs.len(),
                es == exprs.deep_view(),
                n == es.len(),
                data@.len() == schema@.len(),
                spec_eval_batch(es, schema@, data@) == match spec_eval_batch(
                    es.skip(i as int),
                    schema@,
                    data@,
                ) {
                    Err(e) => Err::<Seq<DataVal>, ErrorV>(e),
                    Ok(rest) => Ok(result.deep_view() + rest),
                },
        {
            let ghost rem = es.skip(i as int);
            proof {
                assert(rem[0] == es[i as int]);
                assert(exprs.deep_view()[i as int] == exprs@[i as int].deep_view());
                assert(rem.drop_first() =~= es.skip(i + 1));
            }
            match exprs[i].evaluate(schema, data) {
                Err(e) => {
                    return Err(e);
                },
                Ok(v) => {
                    proof {
                        assert(result.deep_view().len() == result@.len());
                    }
                    let ghost prev = result@;
                    let ghost vv = v@;
                    result.push(v);
                    proof {
                        assert(result@.len() == prev.len() + 1);
                        assert(forall|j: int| 0 <= j < prev.len() ==> result@[j] == prev[j]);
                        let rd = result.deep_view();
                        assert(rd[prev.len() as int] == vv);
                        match spec_eval_batch(es.skip(i + 1), schema@, data@) {
                            Err(_) => {},
                            Ok(rest2) => {
                                assert((Seq::new(prev.len() as nat, |j: int| prev[j].deep_view())
                                    + (seq![vv] + rest2)) =~= (rd + rest2));
                            },
                        }
                    }
                },
            }
        }
        proof {
            assert(es.skip(n as int) =~= Seq::<ExprV>::empty());
            match spec_eval_batch(es, schema@, data@) {
                Err(_) => {
                    assert(false);
                },
                Ok(rest) => {
                    assert(result.deep_view() + Seq::<DataVal>::empty() =~= result.deep_view());
                },
            }
        }
        Ok(result)
    }

    /// Evaluate this expression as a constant; it must hold no column
    /// reference.
    pub fn evaluate_constant_expr(&self) -> (r: Result<Data, Error>)
        ensures
            res_view(r) == spec_eval_constant(self@),
        decreases self,
    {
        match self {
            Expr::Literal(d) => Ok(d.clone()),
            Expr::BinaryExpr { left, op, right } => {
                match left.evaluate_constant_expr() {
                    Err(e) => Err(e),
                    Ok(l) => match right.evaluate_constant_expr() {
                        Err(e) => Err(e),
                        Ok(r2) => op.operate(l, r2),
                    },
                }
            },
            Expr::Column(_) => Err(
                Error::PlanError(
                    PlanError::ExprEvaluationError(
                        ExprEvaluationError::ExprIsNotConstant { expr: self.clone() },
                    ),
                ),
            ),
        }
    }

    /// The datatype of this expression over `schema`.
    pub fn datatype(&self, schema: &Schema) -> (r: Result<DataType, Error>)
        ensures
            res_view(r) == spec_expr_datatype(self@, schema@),
        decreases self,
    {
        match self {
            Expr::Column(col_name) => {
                proof {
                    lemma_index_of(schema@, col_name@);
                }
                match schema.column_datatype(col_name.as_str()) {
                    Ok(dt) => Ok(dt),
                    Err(e) => Err(Error::CatalogError(e)),
                }
            },
            Expr::Literal(d) => Ok(d.datatype()),
            Expr::BinaryExpr { left, op, right } => {
                match left.datatype(schema) {
                    Err(e) => Err(e),
                    Ok(l) => match right.datatype(schema) {
                        Err(e) => Err(e),
                        Ok(r2) => op.datatype_of_operation(&l, &r2),
                    },
                }
            },
        }
    }

    /// The datatype of this expression, which must hold no column reference.
    pub fn datatype_of_constant_expr(&self) -> (r: Result<DataType, Error>)
        ensures
            res_view(r) == spec_datatype_of_constant(self@),
        decreases self,
    {
        match self {
            Expr::Literal(d) => Ok(d.datatype()),
            Expr::BinaryExpr { left, op, right } => {
                match left.datatype_of_constant_expr() {
                    Err(e) => Err(e),
                    Ok(l) => match right.datatype_of_constant_expr() {
                        Err(e) => Err(e),
                        Ok(r2) => op.datatype_of_operation(&l, &r2),
                    },
                }
            },
            Expr::Column(_) => Err(
                Error::PlanError(
                    PlanError::ExprEvaluationError(
                        ExprEvaluationError::ExprIsNotConstant { expr: self.clone() },
                    ),
                ),
            ),
        }
    }
}

/// Evaluation agrees with typing: an expression that types over a schema
/// evaluates successfully on every row conforming to that schema, and the
/// value's datatype is the one typing promised.
pub proof fn lemma_well_typed_evaluates(e: ExprV, s: Seq<ColumnV>, t: Seq<DataVal>)
    requires
        tuple_conforms(t, s),
        spec_expr_datatype(e, s) is Ok,
    ensures
        spec_eval(e, s, t) is Ok,
        spec_datatype(spec_eval(e, s, t)->Ok_0) == spec_expr_datatype(e, s)->Ok_0,
    decreases e,
{
    match e {
        ExprV::Column(name) => {
            lemma_index_of(s, name);
        },
        ExprV::Literal(_) => {},
        ExprV::BinaryExpr { left, op, right } => {
            lemma_well_typed_evaluates(*left, s, t);
            lemma_well_typed_evaluates(*right, s, t);
        },
    }
}

} // verus!
