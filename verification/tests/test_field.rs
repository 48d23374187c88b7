use std::cmp::Ordering::{Equal, Greater, Less};
use uxf::constants::{
    BOOL_FALSE, BOOL_TRUE, VALUE_NAME_NULL, VTYPE_NAME_BOOL, VTYPE_NAME_BYTES, VTYPE_NAME_DATE,
    VTYPE_NAME_DATETIME, VTYPE_NAME_INT, VTYPE_NAME_LIST, VTYPE_NAME_MAP, VTYPE_NAME_REAL,
    VTYPE_NAME_STR, VTYPE_NAME_TABLE,
};
use uxf::field::{compare_staged, make_fields, write_field, Field};
use uxf::test_utils::check_error_code;

#[test]
fn t_field() {
    // Tests new() new_anyvtype() name() vtype() == != clone()
    for (i, vtype) in [
        VTYPE_NAME_BOOL,
        VTYPE_NAME_BYTES,
        VTYPE_NAME_DATE,
        VTYPE_NAME_DATETIME,
        VTYPE_NAME_INT,
        VTYPE_NAME_LIST,
        VTYPE_NAME_MAP,
        VTYPE_NAME_REAL,
        VTYPE_NAME_STR,
        VTYPE_NAME_TABLE,
        "MyType",
        "Custom_",
        "_special",
        "_99",
        "a_y_47ĕặæ_",
    ]
    .iter()
    .enumerate()
    {
        // With Some vtype
        let name = format!("{}{}", vtype, i + 1);
        let f = Field::new(&name, vtype).unwrap();
        assert_eq!(f.to_string(), format!("Field::new({:?}, {:?})", name, vtype));
        assert_eq!(f.name(), name);
        assert_eq!(&f.vtype().unwrap(), vtype);
        let g = Field::new(&name, vtype).unwrap();
        assert!(f == g);

        // With vtype None
        let name = format!("{}{}", vtype, i + 1);
        let h = Field::new_anyvtype(&name).unwrap();
        assert_eq!(h.to_string(), format!("Field::new_anyvtype({:?})", name));
        assert_eq!(h.name(), name);
        assert!(&h.vtype().is_none());
        let i = Field::new_anyvtype(&name).unwrap();
        assert!(h == i);
        assert!(f != h);
        assert!(g != i);
        let j = f.clone();
        assert!(j == f);
        assert!(j != h);
        let k = h.clone();
        assert!(k == h);
        assert!(k != g);
    }
}

#[test]
fn t_field_new_invalid_name() {
    for (code, name) in [
        (304, VALUE_NAME_NULL),
        (304, VTYPE_NAME_BOOL),
        (304, VTYPE_NAME_BYTES),
        (304, VTYPE_NAME_DATE),
        (304, VTYPE_NAME_DATETIME),
        (304, VTYPE_NAME_INT),
        (304, VTYPE_NAME_LIST),
        (304, VTYPE_NAME_MAP),
        (304, VTYPE_NAME_REAL),
        (304, VTYPE_NAME_STR),
        (304, VTYPE_NAME_TABLE),
        (602, "*abc"),
        (602, "1int"),
        (602, "€200"),
        (604, BOOL_FALSE),
        (604, BOOL_TRUE),
        (
            606,
            "xxxxxxxxxxxxxxxxxxxxxxxxxxxxxx\
               xxxxxxxxxxxxxxxxxxxxxxxxxxxxxxy",
        ),
        (608, "e—"),
        (608, "_almost#1"),
        (608, "f1:"),
    ] {
        // With Some vtype
        let f = Field::new(name, if code == 304 { name } else { "str" });
        assert!(f.is_err(), "expected err of #{} on {}", code, name);
        let e = f.unwrap_err();
        assert!(check_error_code(&e.to_string(), code, name));

        // With vtype None
        let f = Field::new_anyvtype(name);
        assert!(f.is_err(), "expected err of #{} on {}", code, name);
        let e = f.unwrap_err();
        assert!(check_error_code(&e.to_string(), code, name));
    }
}

#[test]
fn t_field_new_invalid_vtype() {
    for (code, vtype) in [
        (600, ""),
        (602, "*abc"),
        (602, ".Custom_"),
        (602, "1int"),
        (602, "€200"),
        (604, BOOL_FALSE),
        (604, BOOL_TRUE),
        (
            606,
            "xxxxxxxxxxxxxxxxxxxxxxxxxxxxxx\
               xxxxxxxxxxxxxxxxxxxxxxxxxxxxxxy",
        ),
        (608, "My.Type"),
        (608, "_9.9"),
        (608, "_almost#1"),
        (608, "_special."),
        (608, "a_y_47ĕặæ_."),
        (608, "e—"),
        (608, "f1:"),
    ] {
        let f = Field::new("test", vtype);
        assert!(f.is_err(), "expected err of #{} on {}", code, vtype);
        let e = f.unwrap_err();
        assert!(check_error_code(&e.to_string(), code, vtype));
    }
}

#[test]
fn field_equality_is_by_name_and_vtype() {
    assert!(Field::new("x", "int").unwrap() == Field::new("x", "int").unwrap());
    assert!(Field::new("x", "int").unwrap() != Field::new("x", "str").unwrap());
    assert!(Field::new_anyvtype("x").unwrap() != Field::new("x", "int").unwrap());
    assert!(Field::new("x", "int").unwrap() != Field::new("y", "int").unwrap());
}

#[test]
fn field_order_ignores_case_first() {
    let abc = Field::new("abc", "int").unwrap();
    let abd_upper = Field::new("ABD", "int").unwrap();
    assert!(abc < abd_upper);
    assert!(abd_upper > abc);
    assert_eq!(abc.cmp(&abd_upper), std::cmp::Ordering::Less);
    assert_eq!(abd_upper.cmp(&abc), std::cmp::Ordering::Greater);
}

#[test]
fn field_order_breaks_case_ties_by_code_point() {
    let lower = Field::new("abc", "int").unwrap();
    let upper = Field::new("ABC", "int").unwrap();
    assert!(!(lower < upper));
    assert!(upper < lower);
    assert_eq!(lower.cmp(&upper), std::cmp::Ordering::Greater);
    assert_eq!(lower.cmp(&lower), std::cmp::Ordering::Equal);
}

#[test]
fn field_order_ends_with_vtype() {
    let any = Field::new_anyvtype("x").unwrap();
    let int = Field::new("x", "int").unwrap();
    let str = Field::new("x", "str").unwrap();
    assert!(any < int);
    assert!(int < str);
    assert!(any < str);
    assert!(!(int < any));
    assert_eq!(int.partial_cmp(&int), Some(std::cmp::Ordering::Equal));
}

#[test]
fn field_order_puts_a_name_before_its_extensions() {
    let short = Field::new_anyvtype("ab").unwrap();
    let long = Field::new_anyvtype("abc").unwrap();
    assert!(short < long);
    assert!(!(long < short));
}

#[test]
fn field_vtype_may_be_a_builtin_type_name() {
    for vtype in ["null", "int", "str", "table", "datetime"] {
        let f = Field::new("column", vtype).unwrap();
        assert_eq!(f.vtype(), Some(vtype));
        assert_eq!(f.name(), "column");
    }
}

#[test]
fn field_name_is_checked_before_vtype() {
    let e = Field::new("1x", "").unwrap_err();
    assert_eq!(e.code(), 602);
    let e = Field::new("x", "").unwrap_err();
    assert_eq!(e.code(), 600);
}

#[test]
fn field_text_quotes_and_escapes() {
    let f = Field::new("x", "int").unwrap();
    assert_eq!(f.to_string(), "Field::new(\"x\", \"int\")");
    let g = Field::new_anyvtype("Größe").unwrap();
    assert_eq!(g.to_string(), "Field::new_anyvtype(\"Größe\")");
}

#[test]
fn make_fields_makes_one_field_per_pair() {
    let fields =
        make_fields(&[("Data", ""), ("Date", "date"), ("Level", "real"), ("name", "str")]).unwrap();
    assert_eq!(fields.len(), 4);
    assert_eq!(fields[0].to_string(), "Field::new_anyvtype(\"Data\")");
    assert_eq!(fields[1].to_string(), "Field::new(\"Date\", \"date\")");
    assert_eq!(fields[2].to_string(), "Field::new(\"Level\", \"real\")");
    assert_eq!(fields[3].to_string(), "Field::new(\"name\", \"str\")");
    assert!(make_fields(&[]).unwrap().is_empty());
}

#[test]
fn make_fields_gives_the_first_error() {
    let e = make_fields(&[("ok", ""), ("int", "int"), ("", "")]).unwrap_err();
    assert_eq!(e.code(), 304);
    let e = make_fields(&[("ok", "9"), ("int", "int")]).unwrap_err();
    assert_eq!(e.code(), 602);
    assert_eq!(e.to_string(), "#602:type names must start with a letter or underscore, got 9");
}

#[test]
fn field_is_written_from_its_quoted_parts() {
    assert_eq!(write_field("<n>", Some("<t>")), "Field::new(<n>, <t>)");
    assert_eq!(write_field("<n>", None), "Field::new_anyvtype(<n>)");
    assert_eq!(write_field("\"x\"", Some("\"int\"")), "Field::new(\"x\", \"int\")");
    assert_eq!(write_field("", Some("")), "Field::new(, )");
}

#[test]
fn field_stages_are_compared_in_turn() {
    let lower = Field::new("abc", "int").unwrap();
    let upper = Field::new("ABC", "int").unwrap();
    let any = Field::new_anyvtype("abc").unwrap();
    assert_eq!(compare_staged("ABC", &lower, "ABD", &upper), Less);
    assert_eq!(compare_staged("ABD", &lower, "ABC", &upper), Greater);
    assert_eq!(compare_staged("ABC", &lower, "ABC", &upper), Greater);
    assert_eq!(compare_staged("ABC", &upper, "ABC", &lower), Less);
    assert_eq!(compare_staged("ABC", &lower, "ABC", &lower), Equal);
    assert_eq!(compare_staged("ABC", &any, "ABC", &lower), Less);
    assert_eq!(compare_staged("ABC", &lower, "ABC", &any), Greater);
    assert_eq!(compare_staged("", &lower, "", &upper), Greater);
}

#[test]
fn field_order_goes_by_upper_case_beyond_ascii() {
    let strasse = Field::new_anyvtype("straße").unwrap();
    let strasse_upper = Field::new_anyvtype("STRASSE").unwrap();
    let strast = Field::new_anyvtype("STRAST").unwrap();
    assert!(strasse < strast);
    assert!(strasse_upper < strasse);
    let e_acute = Field::new_anyvtype("é").unwrap();
    let e_acute_upper = Field::new_anyvtype("É").unwrap();
    let f = Field::new_anyvtype("f").unwrap();
    assert!(e_acute_upper < e_acute);
    assert!(f < e_acute);
    assert!(f < e_acute_upper);
}

#[test]
fn field_text_escapes_what_cannot_stand_between_quotes() {
    let t = uxf::tclass::TClass::new("T", vec![], Some("a \"b\" \\ c\n")).unwrap();
    assert_eq!(t.to_string(), "TClass::new_fieldless(\"T\", Some(\"a \\\"b\\\" \\\\ c\\n\"))");
    let plain = uxf::tclass::TClass::new("T", vec![], Some("it is ~ plain: (1 + 2) = 3!")).unwrap();
    assert_eq!(plain.to_string(), "TClass::new_fieldless(\"T\", Some(\"it is ~ plain: (1 + 2) = 3!\"))");
}
