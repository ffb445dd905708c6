//! Expression typing and evaluation behaviour.

use vinyldb::catalog::schema::Schema;
use vinyldb::data::tuple::Tuple;
use vinyldb::data::types::{Data, DataType};
use vinyldb::expr::{Expr, Operator};

fn test_schema() -> Schema {
    Schema::new_with_duplicate_check(vec![
        ("name".into(), DataType::String),
        ("age".into(), DataType::Int64),
        ("score".into(), DataType::Int64),
        ("graduated".into(), DataType::Bool),
    ])
    .unwrap()
}

fn test_tuple() -> Tuple {
    Tuple::new(vec![
        Data::String("steve".into()),
        Data::Int64(18),
        Data::Int64(0),
        Data::Bool(true),
    ])
}

#[test]
fn evaluate_column_expr() {
    let schema = test_schema();
    let tuple = test_tuple();

    let column_expr = Expr::Column("name".into());
    assert_eq!(
        column_expr.evaluate(&schema, &tuple).unwrap(),
        Data::String("steve".into())
    );

    let column_expr = Expr::Column("age".into());
    assert_eq!(column_expr.evaluate(&schema, &tuple).unwrap(), Data::Int64(18));

    let column_expr = Expr::Column("score".into());
    assert_eq!(column_expr.evaluate(&schema, &tuple).unwrap(), Data::Int64(0));
}

#[test]
fn evaluate_literal_expr() {
    let schema = test_schema();
    let tuple = test_tuple();

    let column_expr = Expr::Literal(Data::String("steve".into()));
    assert_eq!(
        column_expr.evaluate(&schema, &tuple).unwrap(),
        Data::String("steve".into())
    );

    let column_expr = Expr::Literal(Data::Int64(18));
    assert_eq!(column_expr.evaluate(&schema, &tuple).unwrap(), Data::Int64(18));

    let column_expr = Expr::Literal(Data::Int64(0));
    assert_eq!(column_expr.evaluate(&schema, &tuple).unwrap(), Data::Int64(0));
}

#[test]
fn evaluate_binary_expr() {
    let schema = test_schema();
    let tuple = test_tuple();

    let column_expr = Expr::Column("age".into());
    let literal_expr = Expr::Literal(Data::Int64(17));
    let gt = Expr::BinaryExpr {
        left: Box::new(column_expr.clone()),
        op: Operator::Gt,
        right: Box::new(literal_expr.clone()),
    };
    assert_eq!(gt.evaluate(&schema, &tuple).unwrap(), Data::Bool(true));

    let gteq = Expr::BinaryExpr {
        left: Box::new(column_expr.clone()),
        op: Operator::GtEq,
        right: Box::new(literal_expr.clone()),
    };
    assert_eq!(gteq.evaluate(&schema, &tuple).unwrap(), Data::Bool(true));

    let lt = Expr::BinaryExpr {
        left: Box::new(column_expr.clone()),
        op: Operator::Lt,
        right: Box::new(literal_expr.clone()),
    };
    assert_eq!(lt.evaluate(&schema, &tuple).unwrap(), Data::Bool(false));

    let lteq = Expr::BinaryExpr {
        left: Box::new(column_expr.clone()),
        op: Operator::LtEq,
        right: Box::new(literal_expr.clone()),
    };
    assert_eq!(lteq.evaluate(&schema, &tuple).unwrap(), Data::Bool(false));

    let eq = Expr::BinaryExpr {
        left: Box::new(column_expr.clone()),
        op: Operator::Eq,
        right: Box::new(literal_expr.clone()),
    };
    assert_eq!(eq.evaluate(&schema, &tuple).unwrap(), Data::Bool(false));

    let not_eq = Expr::BinaryExpr {
        left: Box::new(column_expr.clone()),
        op: Operator::NotEq,
        right: Box::new(literal_expr.clone()),
    };
    assert_eq!(not_eq.evaluate(&schema, &tuple).unwrap(), Data::Bool(true));

    let plus = Expr::BinaryExpr {
        left: Box::new(column_expr.clone()),
        op: Operator::Plus,
        right: Box::new(literal_expr.clone()),
    };
    assert_eq!(plus.evaluate(&schema, &tuple).unwrap(), Data::Int64(35));

    let minus = Expr::BinaryExpr {
        left: Box::new(column_expr.clone()),
        op: Operator::Minus,
        right: Box::new(literal_expr.clone()),
    };
    assert_eq!(minus.evaluate(&schema, &tuple).unwrap(), Data::Int64(1));
}

#[test]
fn plus_two_booleans_is_an_error() {
    let schema = test_schema();
    let tuple = test_tuple();

    let graduated = Expr::Column("graduated".into());
    let plus_bool = Expr::BinaryExpr {
        left: Box::new(graduated.clone()),
        op: Operator::Plus,
        right: Box::new(graduated.clone()),
    };
    assert!(plus_bool.evaluate(&schema, &tuple).is_err());
}

#[test]
fn minus_two_booleans_is_an_error() {
    let schema = test_schema();
    let tuple = test_tuple();

    let graduated = Expr::Column("graduated".into());
    let minus_bool = Expr::BinaryExpr {
        left: Box::new(graduated.clone()),
        op: Operator::Minus,
        right: Box::new(graduated.clone()),
    };
    assert!(minus_bool.evaluate(&schema, &tuple).is_err());
}

#[test]
fn plus_two_strings_is_an_error() {
    let schema = test_schema();
    let tuple = test_tuple();

    let name = Expr::Column("name".into());
    let plus_str = Expr::BinaryExpr {
        left: Box::new(name.clone()),
        op: Operator::Plus,
        right: Box::new(name.clone()),
    };
    assert!(plus_str.evaluate(&schema, &tuple).is_err());
}

#[test]
fn minus_two_strings_is_an_error() {
    let schema = test_schema();
    let tuple = test_tuple();

    let name = Expr::Column("name".into());
    let minus_str = Expr::BinaryExpr {
        left: Box::new(name.clone()),
        op: Operator::Minus,
        right: Box::new(name.clone()),
    };
    assert!(minus_str.evaluate(&schema, &tuple).is_err());
}

#[test]
fn mixed_types_are_an_error() {
    let schema = test_schema();
    let tuple = test_tuple();

    let mixed = Expr::BinaryExpr {
        left: Box::new(Expr::Column("age".into())),
        op: Operator::Eq,
        right: Box::new(Expr::Literal(Data::String("steve".into()))),
    };
    assert!(mixed.evaluate(&schema, &tuple).is_err());
}

#[test]
fn string_ordering_is_lexicographic() {
    let schema = test_schema();
    let tuple = test_tuple();

    let lt = Expr::BinaryExpr {
        left: Box::new(Expr::Column("name".into())),
        op: Operator::Lt,
        right: Box::new(Expr::Literal(Data::String("steven".into()))),
    };
    assert_eq!(lt.evaluate(&schema, &tuple).unwrap(), Data::Bool(true));
}

#[test]
fn float_comparison_follows_numeric_order() {
    let lt = Operator::Lt
        .operate(
            Data::Float64((-2.5_f64).to_bits()),
            Data::Float64(1.5_f64.to_bits()),
        )
        .unwrap();
    assert_eq!(lt, Data::Bool(true));

    let gt = Operator::Gt
        .operate(
            Data::Float64(10.0_f64.to_bits()),
            Data::Float64(2.0_f64.to_bits()),
        )
        .unwrap();
    assert_eq!(gt, Data::Bool(true));
}

#[test]
fn float_arithmetic_is_rejected() {
    let r = Operator::Plus.operate(
        Data::Float64(1.0_f64.to_bits()),
        Data::Float64(2.0_f64.to_bits()),
    );
    assert!(r.is_err());
}

#[test]
fn integer_addition_wraps() {
    let r = Operator::Plus
        .operate(Data::Int64(i64::MAX), Data::Int64(1))
        .unwrap();
    assert_eq!(r, Data::Int64(i64::MIN));
}

#[test]
fn typing_matches_evaluation() {
    let schema = test_schema();

    let cmp = Expr::BinaryExpr {
        left: Box::new(Expr::Column("age".into())),
        op: Operator::Gt,
        right: Box::new(Expr::Literal(Data::Int64(17))),
    };
    assert_eq!(cmp.datatype(&schema).unwrap(), DataType::Bool);

    let add = Expr::BinaryExpr {
        left: Box::new(Expr::Column("age".into())),
        op: Operator::Plus,
        right: Box::new(Expr::Column("score".into())),
    };
    assert_eq!(add.datatype(&schema).unwrap(), DataType::Int64);
    let v = add.evaluate(&schema, &test_tuple()).unwrap();
    assert_eq!(v.datatype(), DataType::Int64);
}

#[test]
fn constant_expressions() {
    let e = Expr::BinaryExpr {
        left: Box::new(Expr::Literal(Data::Int64(1))),
        op: Operator::Plus,
        right: Box::new(Expr::Literal(Data::Int64(2))),
    };
    assert!(e.is_constant());
    assert_eq!(e.evaluate_constant_expr().unwrap(), Data::Int64(3));
    assert_eq!(e.datatype_of_constant_expr().unwrap(), DataType::Int64);

    let c = Expr::Column("age".into());
    assert!(!c.is_constant());
    assert!(c.evaluate_constant_expr().is_err());
}
