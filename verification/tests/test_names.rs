use uxf::constants::{KTYPES, MAX_IDENTIFIER_LEN, RESERVED_WORDS, VTYPES};
use uxf::error::NameError;
use uxf::test_utils::check_error_code;
use uxf::util::{check_name, check_type_name, is_reserved};

fn code_of(res: Result<(), NameError>) -> i32 {
    res.unwrap_err().code()
}

#[test]
fn empty_name_is_refused_with_600() {
    let e = check_type_name("").unwrap_err();
    assert!(matches!(e, NameError::EmptyName));
    assert_eq!(e.code(), 600);
    assert_eq!(e.message(), "type names must be nonempty");
    assert_eq!(e.to_string(), "#600:type names must be nonempty");
    assert_eq!(code_of(check_name("")), 600);
}

#[test]
fn bad_start_is_refused_with_602() {
    for name in ["1", "9lives", "*abc", "-x", " x", ".x", "€200", "١x", "¾"] {
        let e = check_type_name(name).unwrap_err();
        assert!(matches!(e, NameError::BadStart { .. }), "{}", name);
        assert_eq!(e.code(), 602);
        assert_eq!(
            e.to_string(),
            format!("#602:type names must start with a letter or underscore, got {}", name)
        );
        assert_eq!(code_of(check_name(name)), 602);
    }
    let long_bad_start = format!("1{}", "x".repeat(80));
    assert_eq!(code_of(check_type_name(&long_bad_start)), 602);
}

#[test]
fn boolean_words_are_refused_with_604() {
    for name in ["yes", "no"] {
        let e = check_type_name(name).unwrap_err();
        assert!(matches!(e, NameError::ReservedBoolean { .. }));
        assert_eq!(e.code(), 604);
        assert_eq!(e.to_string(), format!("#604:type names may not be yes or no got {}", name));
        assert_eq!(code_of(check_name(name)), 604);
        assert!(is_reserved(name));
    }
    for name in ["Yes", "NO", "yes_", "non"] {
        assert!(check_type_name(name).is_ok(), "{}", name);
        assert!(check_name(name).is_ok(), "{}", name);
    }
}

#[test]
fn long_name_is_refused_with_606_and_its_length() {
    let sixty = "x".repeat(60);
    assert!(check_type_name(&sixty).is_ok());
    assert!(check_name(&sixty).is_ok());
    let sixty_one = "x".repeat(61);
    let e = check_type_name(&sixty_one).unwrap_err();
    match &e {
        NameError::TooLong { name, max, count } => {
            assert_eq!(name, &sixty_one);
            assert_eq!(*max, 60);
            assert_eq!(*count, 61);
        }
        other => panic!("{:?}", other),
    }
    assert_eq!(e.code(), 606);
    assert_eq!(
        e.to_string(),
        format!(
            "#606:type names may be at most 60 characters long, got {} (61 characters)",
            sixty_one
        )
    );
    let hundred = format!("_{}", "9".repeat(99));
    let e = check_name(&hundred).unwrap_err();
    assert_eq!(
        e.to_string(),
        format!(
            "#606:type names may be at most 60 characters long, got {} (100 characters)",
            hundred
        )
    );
    assert!(check_error_code(&e.to_string(), 606, &hundred));
    assert_eq!(MAX_IDENTIFIER_LEN, 60);
}

#[test]
fn length_is_counted_in_characters_not_bytes() {
    let sixty = "é".repeat(60);
    assert_eq!(sixty.len(), 120);
    assert!(check_type_name(&sixty).is_ok());
    let sixty_one = "é".repeat(61);
    let e = check_type_name(&sixty_one).unwrap_err();
    assert_eq!(
        e.to_string(),
        format!(
            "#606:type names may be at most 60 characters long, got {} (61 characters)",
            sixty_one
        )
    );
    assert!(check_error_code(&e.to_string(), 606, &sixty_one));
}

#[test]
fn length_is_checked_before_the_characters() {
    let long_with_bad_char = format!("a#{}", "x".repeat(70));
    assert_eq!(code_of(check_type_name(&long_with_bad_char)), 606);
    let short_with_bad_char = format!("a#{}", "x".repeat(58));
    assert_eq!(code_of(check_type_name(&short_with_bad_char)), 608);
}

#[test]
fn bad_char_is_refused_with_608() {
    for name in [
        "a b", "a-b", "x.y", "f1:", "_almost#1", "e—", "a€", "ab!", "a\u{1F49D}", "a¾", "x٣", "n²",
        "My.Type", "_9.9",
    ] {
        let e = check_type_name(name).unwrap_err();
        assert!(matches!(e, NameError::BadChar { .. }), "{}", name);
        assert_eq!(e.code(), 608);
        assert_eq!(
            e.to_string(),
            format!(
                "#608:type names may only contain letters, digits, or underscores, got {}",
                name
            )
        );
        assert_eq!(code_of(check_name(name)), 608);
    }
}

#[test]
fn letters_digits_and_underscores_are_accepted() {
    for name in ["a", "_", "_9", "Z0_", "a_y_47ĕặæ_", "京都", "xé9", "__init__", "Ünïcödé1"] {
        assert!(check_type_name(name).is_ok(), "{}", name);
        assert!(check_name(name).is_ok(), "{}", name);
    }
}

#[test]
fn builtin_type_names_are_type_names_but_no_names() {
    for name in [
        "null", "bool", "bytes", "date", "datetime", "int", "list", "map", "real", "str", "table",
    ] {
        assert!(check_type_name(name).is_ok(), "{}", name);
        let e = check_name(name).unwrap_err();
        assert!(matches!(e, NameError::Reserved { .. }));
        assert_eq!(e.code(), 304);
        assert_eq!(
            e.to_string(),
            format!(
                "#304:names cannot be the same as built-in type names or constants, got {}",
                name
            )
        );
        assert!(is_reserved(name));
    }
    for name in ["Null", "INT", "strs", "tables", "in"] {
        assert!(check_name(name).is_ok(), "{}", name);
        assert!(!is_reserved(name));
    }
}

#[test]
fn reserved_words_are_the_type_names_and_the_booleans() {
    assert_eq!(RESERVED_WORDS.len(), 13);
    for word in RESERVED_WORDS {
        assert!(is_reserved(word));
        assert!(check_name(word).is_err());
    }
    for word in VTYPES {
        assert!(RESERVED_WORDS.contains(&word));
    }
    for word in KTYPES {
        assert!(VTYPES.contains(&word));
    }
    assert_eq!(KTYPES, ["bytes", "date", "int", "str"]);
}

#[test]
fn check_error_code_holds_texts_to_the_catalogue() {
    assert!(check_error_code("#600:type names must be nonempty", 600, ""));
    assert!(check_error_code("#600:type names must be nonempty", 600, "ignored"));
    assert!(!check_error_code("#600:type names must be nonempty", 602, ""));
    assert!(!check_error_code("#600:type names must be nonempty.", 600, ""));
    assert!(check_error_code(
        "#602:type names must start with a letter or underscore, got 1int",
        602,
        "1int"
    ));
    assert!(!check_error_code(
        "#602:type names must start with a letter or underscore, got 1int",
        602,
        "2int"
    ));
    assert!(check_error_code("#604:type names may not be yes or no got yes", 604, "yes"));
    assert!(check_error_code(
        "#606:type names may be at most 60 characters long, got abc (3 characters)",
        606,
        "abc"
    ));
    assert!(!check_error_code(
        "#606:type names may be at most 60 characters long, got abc (4 characters)",
        606,
        "abc"
    ));
    assert!(check_error_code(
        "#608:type names may only contain letters, digits, or underscores, got a b",
        608,
        "a b"
    ));
    assert!(check_error_code(
        "#304:names cannot be the same as built-in type names or constants, got int",
        304,
        "int"
    ));
    assert!(!check_error_code(
        "#304:names cannot be the same as built-in type names or constants, got int",
        305,
        "int"
    ));
    assert!(!check_error_code("", 0, ""));
}

#[test]
fn every_refusal_is_catalogued() {
    let long = "y".repeat(75);
    for name in ["", "1", "yes", "no", long.as_str(), "a b", "int", "null", "€", "a€"] {
        let e = check_name(name).unwrap_err();
        assert!(check_error_code(&e.to_string(), e.code(), name), "{}", name);
    }
}
