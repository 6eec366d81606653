use filter_compiler::filter::{Order, SortOrder};
use filter_compiler::text::{i32_decimal, i64_decimal, u64_decimal};
use filter_compiler::value::{DatabaseValue, IdValue, PrismaValue};

#[test]
fn decimal_of_zero() {
    assert_eq!(u64_decimal(0), "0".to_string());
}

#[test]
fn decimal_of_ten() {
    assert_eq!(u64_decimal(10), "10".to_string());
}

#[test]
fn decimal_of_large() {
    assert_eq!(u64_decimal(1234567890), "1234567890".to_string());
    assert_eq!(u64_decimal(u64::MAX), "18446744073709551615".to_string());
}

#[test]
fn decimal_of_negative() {
    assert_eq!(i64_decimal(-1), "-1".to_string());
    assert_eq!(i64_decimal(-907), "-907".to_string());
}

#[test]
fn decimal_of_extremes() {
    assert_eq!(i64_decimal(i64::MIN), "-9223372036854775808".to_string());
    assert_eq!(i64_decimal(i64::MAX), "9223372036854775807".to_string());
    assert_eq!(i32_decimal(i32::MIN), "-2147483648".to_string());
    assert_eq!(i32_decimal(42), "42".to_string());
}

#[test]
fn display_of_text_variants() {
    assert_eq!(
        PrismaValue::Text("hello".to_string()).to_display_string(),
        "hello".to_string()
    );
    assert_eq!(
        PrismaValue::DateTime("2019-03-04T05:06:07Z".to_string()).to_display_string(),
        "2019-03-04T05:06:07Z".to_string()
    );
    assert_eq!(
        PrismaValue::Enum("RED".to_string()).to_display_string(),
        "RED".to_string()
    );
    assert_eq!(
        PrismaValue::Json("{\"a\":1}".to_string()).to_display_string(),
        "{\"a\":1}".to_string()
    );
    assert_eq!(
        PrismaValue::Uuid("0000-01".to_string()).to_display_string(),
        "0000-01".to_string()
    );
}

#[test]
fn display_of_float_is_its_text() {
    let text = format!("{}", 1.5f32);
    assert_eq!(
        PrismaValue::Float(text.clone()).to_display_string(),
        text
    );
}

#[test]
fn display_of_booleans() {
    assert_eq!(
        PrismaValue::Boolean(true).to_display_string(),
        "true".to_string()
    );
    assert_eq!(
        PrismaValue::Boolean(false).to_display_string(),
        "false".to_string()
    );
}

#[test]
fn display_of_integers() {
    assert_eq!(PrismaValue::Int(-7).to_display_string(), "-7".to_string());
    assert_eq!(
        PrismaValue::Relation(12345).to_display_string(),
        "12345".to_string()
    );
}

#[test]
fn display_of_null() {
    assert_eq!(PrismaValue::Null.to_display_string(), "null".to_string());
}

#[test]
fn display_of_identifier_reference() {
    assert_eq!(
        PrismaValue::GraphqlId(IdValue::Text("user-1".to_string())).to_display_string(),
        "user-1".to_string()
    );
    assert_eq!(
        PrismaValue::GraphqlId(IdValue::Int(-3)).to_display_string(),
        "-3".to_string()
    );
}

#[test]
fn native_of_each_variant() {
    assert_eq!(
        DatabaseValue::from(PrismaValue::Text("a".to_string())),
        DatabaseValue::Text("a".to_string())
    );
    let float_text = format!("{}", 2.25f64);
    assert_eq!(
        DatabaseValue::from(PrismaValue::Float(float_text.clone())),
        DatabaseValue::Real(float_text)
    );
    assert_eq!(
        DatabaseValue::from(PrismaValue::Boolean(true)),
        DatabaseValue::Boolean(true)
    );
    assert_eq!(
        DatabaseValue::from(PrismaValue::DateTime("2020-01-01".to_string())),
        DatabaseValue::Text("2020-01-01".to_string())
    );
    assert_eq!(
        DatabaseValue::from(PrismaValue::Enum("BLUE".to_string())),
        DatabaseValue::Text("BLUE".to_string())
    );
    assert_eq!(
        DatabaseValue::from(PrismaValue::Json("[]".to_string())),
        DatabaseValue::Text("[]".to_string())
    );
    assert_eq!(
        DatabaseValue::from(PrismaValue::Int(-5)),
        DatabaseValue::Integer(-5)
    );
    assert_eq!(
        DatabaseValue::from(PrismaValue::Relation(77)),
        DatabaseValue::Integer(77)
    );
    assert_eq!(DatabaseValue::from(PrismaValue::Null), DatabaseValue::Null);
    assert_eq!(
        DatabaseValue::from(PrismaValue::Uuid("u-1".to_string())),
        DatabaseValue::Text("u-1".to_string())
    );
}

#[test]
fn native_of_identifier_reference() {
    assert_eq!(
        DatabaseValue::from(PrismaValue::GraphqlId(IdValue::Text("k".to_string()))),
        DatabaseValue::Text("k".to_string())
    );
    assert_eq!(
        DatabaseValue::from(PrismaValue::GraphqlId(IdValue::Int(8))),
        DatabaseValue::Integer(8)
    );
    assert_eq!(
        DatabaseValue::from(IdValue::Int(9)),
        DatabaseValue::Integer(9)
    );
    assert_eq!(
        DatabaseValue::from(IdValue::Text("z".to_string())),
        DatabaseValue::Text("z".to_string())
    );
}

#[test]
fn sort_order_maps_one_to_one() {
    assert_eq!(Order::from(SortOrder::Asc), Order::Asc);
    assert_eq!(Order::from(SortOrder::Desc), Order::Desc);
}
