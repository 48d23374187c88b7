use uxf::date::{Date, DateTime};
use uxf::list::List;
use uxf::map::Mapping;
use uxf::table::Table;
use uxf::tclass::TClass;
use uxf::test_utils::{opt_value_to_str, value_to_str, NULL_TEXT};
use uxf::value::Real;
use uxf::Value;

#[test]
fn t_single_value() {
    let n = None;
    assert_eq!(opt_value_to_str(n).unwrap(), "?");
    let b = Some(Value::Bool(true));
    assert_eq!(opt_value_to_str(b).unwrap(), "yes");
    let b = Value::Bool(false);
    assert_eq!(value_to_str(b).unwrap(), "no");
    let i = Value::Int(987123);
    assert_eq!(value_to_str(i).unwrap(), "987123");
}

#[test]
fn single_values() {
    let n = None;
    assert_eq!(opt_value_to_str(n).unwrap(), "?");
    let b = Some(Value::Bool(true));
    assert_eq!(opt_value_to_str(b).unwrap(), "yes");
    let b = Value::Bool(false);
    assert_eq!(value_to_str(b).unwrap(), "no");
    let i = Value::Int(987123);
    assert_eq!(value_to_str(i).unwrap(), "987123");
}

fn text_of(v: Value) -> String {
    match value_to_str(v) {
        Ok(text) => text,
        Err(Value::Real(r)) => format!("{}", f64::from_bits(r.to_bits())),
        Err(Value::List(lst)) => format!("{:?}", lst),
        Err(Value::Mapping(m)) => format!("{:?}", m),
        Err(Value::Table(t)) => format!("{:?}", t),
        Err(other) => format!("{:?}", other),
    }
}

#[test]
fn t_table() {
    let tclass = TClass::new_fieldless("Point", None).unwrap();
    let t = Table::new(tclass);
    let v = Value::Table(t);
    assert_eq!(
        text_of(v),
        "Table { tclass: TClass { ttype: \"Point\", fields: [], \
        comment: None }, comment: None, records: [] }"
    );
}

#[test]
fn test_table_t_table() {
    let tclass = TClass::new_fieldless("Point", None).unwrap();
    let t = Table::new(tclass);
    let v = Value::Table(t);
    assert_eq!(
        text_of(v),
        "Table { tclass: TClass { ttype: \"Point\", fields: [], \
        comment: None }, comment: None, records: [] }"
    );
}

#[test]
fn integers_are_written_in_decimal() {
    for i in [0i64, 7, 10, -1, -10, 1234567890, i64::MAX, i64::MIN, i64::MIN + 1, -9, 99, 100] {
        assert_eq!(value_to_str(Value::Int(i)).unwrap(), format!("{}", i));
    }
    assert_eq!(value_to_str(Value::Int(i64::MIN)).unwrap(), "-9223372036854775808");
}

#[test]
fn bytes_are_written_as_a_vector() {
    for bytes in [vec![], vec![0u8], vec![255], vec![1, 2, 3], vec![10, 0, 200, 99]] {
        assert_eq!(value_to_str(Value::Bytes(bytes.clone())).unwrap(), format!("{:?}", bytes));
    }
    assert_eq!(value_to_str(Value::Bytes(vec![1, 20, 255])).unwrap(), "[1, 20, 255]");
    assert_eq!(value_to_str(Value::Bytes(vec![])).unwrap(), "[]");
}

#[test]
fn null_dates_and_strings_have_texts() {
    assert_eq!(value_to_str(Value::Null).unwrap(), NULL_TEXT);
    assert_eq!(NULL_TEXT, "?");
    let date = Date::new(2022, 9, 21).unwrap();
    assert_eq!(value_to_str(Value::Date(date)).unwrap(), "2022-09-21");
    let moment = DateTime::new(date, 7, 8, 9, 0).unwrap();
    assert_eq!(value_to_str(Value::DateTime(moment)).unwrap(), "2022-09-21T07:08:09");
    assert_eq!(opt_value_to_str(Some(Value::Str("as is \"\n".to_string()))).unwrap(), "as is \"\n");
    assert_eq!(value_to_str(Value::Str(String::new())).unwrap(), "");
}

#[test]
fn reals_and_collections_are_handed_back() {
    let real = Value::Real(Real::from_bits(2.5f64.to_bits()));
    assert!(matches!(value_to_str(real), Err(Value::Real(r)) if r.to_bits() == 2.5f64.to_bits()));
    let mut list = List::new(Some("int"), None).unwrap();
    list.push(Some(Value::Int(3))).unwrap();
    assert!(matches!(value_to_str(Value::List(list)), Err(Value::List(l)) if l.len() == 1));
    let map = Mapping::new(None, None, Some("m")).unwrap();
    assert!(matches!(
        opt_value_to_str(Some(Value::Mapping(map))),
        Err(Value::Mapping(m)) if m.comment() == Some("m")
    ));
    let table = Table::new(TClass::new_fieldless("Tag", None).unwrap());
    assert!(matches!(value_to_str(Value::Table(table)), Err(Value::Table(t)) if t.is_empty()));
    assert_eq!(text_of(Value::Real(Real::from_bits(2.5f64.to_bits()))), "2.5");
}
