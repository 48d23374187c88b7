use uxf::error::Error;
use uxf::field::Field;
use uxf::table::{check_record, Table};
use uxf::tclass::TClass;
use uxf::Value;

fn point() -> TClass {
    let x = Field::new("x", "int").unwrap();
    let y = Field::new("y", "int").unwrap();
    TClass::new("Point", vec![x, y], Some("a point")).unwrap()
}

#[test]
fn new_table_is_empty_and_keeps_its_record_type() {
    let t = Table::new(point());
    assert_eq!(t.len(), 0);
    assert!(t.is_empty());
    assert_eq!(t.comment(), None);
    assert!(t.record(0).is_none());
    assert!(*t.tclass() == point());
    assert_eq!(t.tclass().ttype(), "Point");
    assert_eq!(t.tclass().comment(), Some("a point"));
    assert_eq!(t.tclass().len(), 2);
    assert_eq!(t.tclass().fields()[0].name(), "x");
    assert_eq!(t.tclass().fields()[1].vtype(), Some("int"));
}

#[test]
fn table_debug_text_names_every_part() {
    let tclass = TClass::new_fieldless("Point", None).unwrap();
    let t = Table::new(tclass);
    assert_eq!(
        format!("{:?}", t),
        "Table { tclass: TClass { ttype: \"Point\", fields: [], \
        comment: None }, comment: None, records: [] }"
    );
}

#[test]
fn record_of_wrong_length_is_refused() {
    let mut t = Table::new(point());
    let three = vec![Some(Value::Int(1)), Some(Value::Int(2)), Some(Value::Int(3))];
    assert!(matches!(t.append(three), Err(Error::ArityMismatch { expected: 2, actual: 3 })));
    assert!(matches!(
        t.append(vec![Some(Value::Int(1))]),
        Err(Error::ArityMismatch { expected: 2, actual: 1 })
    ));
    assert!(matches!(t.append(vec![]), Err(Error::ArityMismatch { expected: 2, actual: 0 })));
    assert!(t.is_empty());
}

#[test]
fn length_is_checked_before_the_cells() {
    let mut t = Table::new(point());
    let three = vec![Some(Value::Null), Some(Value::Null), Some(Value::Null)];
    assert!(matches!(t.append(three), Err(Error::ArityMismatch { expected: 2, actual: 3 })));
}

#[test]
fn cells_are_held_to_their_fields() {
    let mut t = Table::new(point());
    assert!(t.append(vec![Some(Value::Int(1)), Some(Value::Int(2))]).is_ok());
    assert!(t.append(vec![None, Some(Value::Int(4))]).is_ok());
    assert!(t.append(point().record_of_nulls().unwrap()).is_ok());
    match t.append(vec![Some(Value::Int(1)), Some(Value::Str("2".to_string()))]) {
        Err(Error::TypeMismatch { expected, actual }) => {
            assert_eq!(expected, "int");
            assert_eq!(actual, "str");
        }
        other => panic!("{:?}", other),
    }
    match t.append(vec![Some(Value::Bool(true)), Some(Value::Str("2".to_string()))]) {
        Err(Error::TypeMismatch { expected, actual }) => {
            assert_eq!(expected, "int");
            assert_eq!(actual, "bool");
        }
        other => panic!("{:?}", other),
    }
    assert_eq!(t.len(), 3);
    assert!(!t.is_empty());
    let first = t.record(0).unwrap();
    assert!(matches!(first[0], Some(Value::Int(1))));
    assert!(matches!(first[1], Some(Value::Int(2))));
    let second = t.record(1).unwrap();
    assert!(second[0].is_none());
    assert!(matches!(second[1], Some(Value::Int(4))));
    assert!(t.record(2).unwrap().iter().all(|cell| cell.is_none()));
    assert!(t.record(3).is_none());
}

#[test]
fn fields_of_any_type_take_every_kind() {
    let any = Field::new_anyvtype("anything").unwrap();
    let text = Field::new("text", "str").unwrap();
    let mut t = Table::new(TClass::new("Loose", vec![any, text], None).unwrap());
    assert!(t.append(vec![Some(Value::Int(1)), Some(Value::Str("a".to_string()))]).is_ok());
    assert!(t.append(vec![Some(Value::Null), None]).is_ok());
    let inner = Table::new(point());
    assert!(t.append(vec![Some(Value::Table(inner)), None]).is_ok());
    assert!(t.append(vec![None, Some(Value::Null)]).is_err());
    assert_eq!(t.len(), 3);
}

#[test]
fn table_of_a_fieldless_type_holds_empty_records() {
    let mut t = Table::new(TClass::new_fieldless("Tag", None).unwrap());
    assert!(t.append(vec![]).is_ok());
    assert!(t.append(vec![]).is_ok());
    assert!(matches!(t.append(vec![None]), Err(Error::ArityMismatch { expected: 0, actual: 1 })));
    assert_eq!(t.len(), 2);
    assert!(t.record(1).unwrap().is_empty());
}

#[test]
fn check_record_agrees_with_append() {
    let tclass = point();
    assert!(check_record(&tclass, &vec![None, None]).is_ok());
    assert!(check_record(&tclass, &vec![Some(Value::Int(0)), None]).is_ok());
    assert!(matches!(
        check_record(&tclass, &vec![None]),
        Err(Error::ArityMismatch { expected: 2, actual: 1 })
    ));
    assert!(matches!(
        check_record(&tclass, &vec![None, Some(Value::Null)]),
        Err(Error::TypeMismatch { .. })
    ));
}
