use std::str::FromStr;

use gluesql_core::ast::DataType;
use gluesql_core::data::Value as EngineValue;
use gluesql_core::query_builder::{ExprNode, NumericNode};
use gluesql_derive::to_gluesql::checked_to_gluesql;
use gluesql_derive::{
    try_derive_to_row, DeriveGluesqlRow, GluesqlField, ToGlueSql, ToRowContract, UtcDateTime,
};

fn field(ident: &str, ty: &str) -> GluesqlField {
    GluesqlField {
        index: 0,
        ident: ident.to_string(),
        ty: ty.to_string(),
        flatten: false,
        try_from: None,
        from: None,
        rename: None,
    }
}

fn contract_of(fields: Vec<GluesqlField>) -> ToRowContract {
    try_derive_to_row(DeriveGluesqlRow { ident: "Foo".to_string(), generics: vec![], fields })
        .unwrap()
}

struct Foo {
    a: i64,
    b: bool,
    c: String,
    d: Option<i64>,
    e: rust_decimal::Decimal,
}

fn foo_to_row(foo: &Foo) -> Vec<ExprNode<'static>> {
    let contract = contract_of(vec![
        field("a", "i64"),
        field("b", "bool"),
        field("c", "String"),
        field("d", "Option<i64>"),
        field("e", "rust_decimal::Decimal"),
    ]);
    let fields = contract.fields();
    vec![
        fields[0].project(&foo.a),
        fields[1].project(&foo.b),
        fields[2].project(&foo.c),
        fields[3].project(&foo.d),
        fields[4].project(&foo.e),
    ]
}

#[test]
fn test_togluesql_field_struct() {
    let data = Foo {
        a: 1,
        b: true,
        c: "hello".to_string(),
        d: None,
        e: rust_decimal::Decimal::from_str("1.23").unwrap(),
    };
    let row = foo_to_row(&data);
    println!("{:?}", row);
    assert_eq!(row.len(), 5);
    assert!(matches!(&row[0], ExprNode::Numeric(NumericNode::I64(1))));
    assert!(matches!(&row[2], ExprNode::QuotedString(s) if s == "hello"));
    assert!(matches!(&row[4], ExprNode::SqlExpr(s) if s == "1.23"));
}

#[test]
fn projection_keeps_declared_order() {
    let contract = contract_of(vec![field("a", "i64"), field("b", "i64"), field("c", "i64")]);
    let row = contract.to_gluesql_row(&[10i64, 20, 30]);
    assert_eq!(row.len(), 3);
    assert!(matches!(&row[0], ExprNode::Numeric(NumericNode::I64(10))));
    assert!(matches!(&row[1], ExprNode::Numeric(NumericNode::I64(20))));
    assert!(matches!(&row[2], ExprNode::Numeric(NumericNode::I64(30))));
    let indices: Vec<usize> = contract.fields().iter().map(|f| f.index).collect();
    assert_eq!(indices, vec![0, 1, 2]);
}

#[test]
fn numbers_keep_their_width() {
    assert!(matches!((-8i8).to_gluesql(), ExprNode::Numeric(NumericNode::I8(-8))));
    assert!(matches!((-16i16).to_gluesql(), ExprNode::Numeric(NumericNode::I16(-16))));
    assert!(matches!((-32i32).to_gluesql(), ExprNode::Numeric(NumericNode::I32(-32))));
    assert!(matches!((-64i64).to_gluesql(), ExprNode::Numeric(NumericNode::I64(-64))));
    assert!(matches!(8u8.to_gluesql(), ExprNode::Numeric(NumericNode::U8(8))));
    assert!(matches!(16u16.to_gluesql(), ExprNode::Numeric(NumericNode::U16(16))));
    assert!(matches!(32u32.to_gluesql(), ExprNode::Numeric(NumericNode::U32(32))));
    assert!(matches!(u64::MAX.to_gluesql(), ExprNode::Numeric(NumericNode::U64(u64::MAX))));
}

fn is_value(node: &ExprNode<'static>, expected: &EngineValue) -> bool {
    match node {
        ExprNode::Expr(expr) => match expr.as_ref() {
            gluesql_core::ast::Expr::Value(v) => v == expected,
            _ => false,
        },
        _ => false,
    }
}

#[test]
fn texts_booleans_and_null() {
    assert!(matches!("it's".to_string().to_gluesql(), ExprNode::QuotedString(s) if s == "it's"));
    assert!(matches!("abc".to_gluesql(), ExprNode::QuotedString(s) if s == "abc"));
    assert!(is_value(&true.to_gluesql(), &EngineValue::Bool(true)));
    assert!(is_value(&false.to_gluesql(), &EngineValue::Bool(false)));
    assert!(is_value(&().to_gluesql(), &EngineValue::Null));
    assert!(is_value(&None::<i64>.to_gluesql(), &EngineValue::Null));
    assert!(matches!(Some(5i64).to_gluesql(), ExprNode::Numeric(NumericNode::I64(5))));
}

#[test]
fn dates_and_times() {
    let date = chrono::NaiveDate::from_ymd_opt(2024, 2, 29).unwrap();
    assert!(matches!(
        date.to_gluesql(),
        ExprNode::TypedString { data_type: DataType::Date, value } if value == "2024-02-29"
    ));
    let time = chrono::NaiveTime::from_hms_opt(1, 2, 3).unwrap();
    assert!(matches!(
        time.to_gluesql(),
        ExprNode::TypedString { data_type: DataType::Date, value } if value == "01:02:03"
    ));
    let at = date.and_hms_micro_opt(1, 2, 3, 4).unwrap();
    let micros = at.and_utc().timestamp_micros();
    assert_eq!(micros, 1_709_168_523_000_004);
    assert!(matches!(at.to_gluesql(), ExprNode::Numeric(NumericNode::I64(m)) if m == micros));
    assert!(matches!(
        UtcDateTime(at).to_gluesql(),
        ExprNode::TypedString { data_type: DataType::Timestamp, value }
            if value == "2024-02-29T01:02:03.000004+00:00"
    ));
}

#[test]
fn time_spans() {
    assert!(matches!(
        chrono::TimeDelta::seconds(1).to_gluesql(),
        ExprNode::Numeric(NumericNode::I64(1_000_000))
    ));
    assert!(matches!(
        std::time::Duration::from_secs(1).to_gluesql(),
        ExprNode::Numeric(NumericNode::I64(1_000_000))
    ));
    assert!(matches!(
        std::time::Duration::from_micros(u64::MAX).to_gluesql(),
        ExprNode::Numeric(NumericNode::I64(-1))
    ));
    let at = std::time::UNIX_EPOCH + std::time::Duration::from_millis(5);
    assert!(matches!(at.to_gluesql(), ExprNode::Numeric(NumericNode::I64(5_000))));
}

#[test]
fn values_without_expression_are_left_alone() {
    let before = std::time::UNIX_EPOCH - std::time::Duration::from_secs(1);
    assert!(checked_to_gluesql(&before).is_none());
    let after = std::time::UNIX_EPOCH + std::time::Duration::from_secs(1);
    assert!(matches!(
        checked_to_gluesql(&after),
        Some(ExprNode::Numeric(NumericNode::I64(1_000_000)))
    ));
    assert!(checked_to_gluesql(&chrono::TimeDelta::MAX).is_none());
    assert!(matches!(
        checked_to_gluesql(&chrono::TimeDelta::microseconds(-7)),
        Some(ExprNode::Numeric(NumericNode::I64(-7)))
    ));
}

#[test]
fn identifiers_and_decimals() {
    let id = uuid::Uuid::from_u128(0x0102030405060708090a0b0c0d0e0f10);
    assert!(matches!(
        id.to_gluesql(),
        ExprNode::QuotedString(s) if s == "01020304-0506-0708-090a-0b0c0d0e0f10"
    ));
    let d = rust_decimal::Decimal::from_str("-0.50").unwrap();
    assert!(matches!(d.to_gluesql(), ExprNode::SqlExpr(s) if s == "-0.50"));
}
