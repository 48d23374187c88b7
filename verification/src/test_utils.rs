//! Checks of reported errors against the catalogue of numbered messages,
//! and texts of values for diagnostics.

use vstd::prelude::*;
use vstd::string::StringExecFns;
use vstd::string::StrSliceExecFns;
use crate::constants::{BOOL_FALSE, BOOL_TRUE, MAX_IDENTIFIER_LEN};
use crate::error::{NameError, NameErrorView};
use crate::text::{bytes_text, bytes_to_string, push_signed, same_text, signed_decimal};
use crate::util::name_error;
use crate::value::Value;

verus! {

/// The error that the catalogue holds under a number for a name, if the
/// number is one of the catalogue's.
pub open spec fn catalogued(code: int, name: Seq<char>) -> Option<NameErrorView> {
    if code == 600 {
        Some(NameErrorView::EmptyName)
    } else if code == 602 {
        Some(NameErrorView::BadStart { name })
    } else if code == 604 {
        Some(NameErrorView::ReservedBoolean { name })
    } else if code == 606 {
        Some(
            NameErrorView::TooLong {
                name,
                max: MAX_IDENTIFIER_LEN as nat,
                count: name.len(),
            },
        )
    } else if code == 608 {
        Some(NameErrorView::BadChar { name })
    } else if code == 304 {
        Some(NameErrorView::Reserved { name })
    } else {
        None
    }
}

/// Whether `error` is the text under which the catalogue reports the
/// error of number `code` for `name`. No text is right for a number that
/// the catalogue lacks.
pub fn check_error_code(error: &str, code: i32, name: &str) -> (ok: bool)
    ensures
        ok == (catalogued(code as int, name@) matches Some(e) && error@ == e.text()),
{
    let owned = String::from_str(name);
    let expected = if code == 600 {
        NameError::EmptyName
    } else if code == 602 {
        NameError::BadStart { name: owned }
    } else if code == 604 {
        NameError::ReservedBoolean { name: owned }
    } else if code == 606 {
        NameError::TooLong { name: owned, max: MAX_IDENTIFIER_LEN, count: name.unicode_len() }
    } else if code == 608 {
        NameError::BadChar { name: owned }
    } else if code == 304 {
        NameError::Reserved { name: owned }
    } else {
        return false;
    };
    let text = expected.to_string();
    same_text(error, text.as_str())
}

/// Every error that a name is refused with is the one that the catalogue
/// holds under the error's number for that name.
pub proof fn refusals_are_catalogued(name: Seq<char>)
    ensures
        match name_error(name) {
            Some(e) => catalogued(e.code(), name) == Some(e),
            None => true,
        },
{
}

/// How an absent value and the null value are written.
pub const NULL_TEXT: &'static str = "?";

/// The text of a value, for the kinds that have one here: a boolean as
/// `yes` or `no`, bytes as a vector of numerals, dates and times in ISO
/// form, an integer as a decimal numeral, a string as itself, null as a
/// question mark. Reals and collections have none.
pub open spec fn value_text(v: Value) -> Option<Seq<char>> {
    match v {
        Value::Null => Some(NULL_TEXT@),
        Value::Bool(b) => Some(
            if b {
                BOOL_TRUE@
            } else {
                BOOL_FALSE@
            },
        ),
        Value::Bytes(b) => Some(bytes_text(b@)),
        Value::Date(d) => Some(d@.text()),
        Value::DateTime(t) => Some(t@.text()),
        Value::Int(i) => Some(signed_decimal(i as int)),
        Value::Str(s) => Some(s@),
        _ => None,
    }
}

/// The text of a value, or the value itself where it is a real or a
/// collection, which are not written here.
pub fn value_to_str(v: Value) -> (res: Result<String, Value>)
    ensures
        match res {
            Ok(text) => value_text(v) == Some(text@),
            Err(back) => value_text(v) is None && back == v,
        },
{
    match v {
        Value::Null => Ok(String::from_str(NULL_TEXT)),
        Value::Bool(true) => Ok(String::from_str(BOOL_TRUE)),
        Value::Bool(false) => Ok(String::from_str(BOOL_FALSE)),
        Value::Bytes(b) => Ok(bytes_to_string(&b)),
        Value::Date(d) => Ok(d.to_string()),
        Value::DateTime(dt) => Ok(dt.to_string()),
        Value::Int(i) => {
            let mut s = String::new();
            push_signed(&mut s, i);
            assert(s@ =~= signed_decimal(i as int));
            Ok(s)
        },
        Value::Str(s) => Ok(s),
        other => Err(other),
    }
}

/// The text of an optional value: a question mark for an absent one.
pub fn opt_value_to_str(v: Option<Value>) -> (res: Result<String, Value>)
    ensures
        match (v, res) {
            (None, Ok(text)) => text@ == NULL_TEXT@,
            (None, Err(_)) => false,
            (Some(value), Ok(text)) => value_text(value) == Some(text@),
            (Some(value), Err(back)) => value_text(value) is None && back == value,
        },
{
    match v {
        None => Ok(String::from_str(NULL_TEXT)),
        Some(v) => value_to_str(v),
    }
}

} // verus!
