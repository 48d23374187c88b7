//! What the constructors and mutators of this library refuse, with the
//! numbered messages by which each refusal is reported.

use vstd::prelude::*;
use vstd::string::StringExecFns;
use crate::text::{decimal, push_decimal, string_view};

verus! {

/// Why a text cannot serve as a name.
#[derive(Debug)]
pub enum NameError {
    /// The name is a built-in type name or constant.
    Reserved { name: String },
    /// The name has no characters.
    EmptyName,
    /// The name starts with neither a letter nor an underscore.
    BadStart { name: String },
    /// The name is one of the two boolean literals.
    ReservedBoolean { name: String },
    /// The name has `count` characters, more than the `max` allowed.
    TooLong { name: String, max: usize, count: usize },
    /// A character after the first is no letter, digit or underscore.
    BadChar { name: String },
}

/// A `NameError` over mathematical text.
pub enum NameErrorView {
    Reserved { name: Seq<char> },
    EmptyName,
    BadStart { name: Seq<char> },
    ReservedBoolean { name: Seq<char> },
    TooLong { name: Seq<char>, max: nat, count: nat },
    BadChar { name: Seq<char> },
}

impl View for NameError {
    type V = NameErrorView;

    open spec fn view(&self) -> NameErrorView {
        match *self {
            NameError::Reserved { name } => NameErrorView::Reserved { name: name@ },
            NameError::EmptyName => NameErrorView::EmptyName,
            NameError::BadStart { name } => NameErrorView::BadStart { name: name@ },
            NameError::ReservedBoolean { name } => NameErrorView::ReservedBoolean { name: name@ },
            NameError::TooLong { name, max, count } => NameErrorView::TooLong {
                name: name@,
                max: max as nat,
                count: count as nat,
            },
            NameError::BadChar { name } => NameErrorView::BadChar { name: name@ },
        }
    }
}

impl NameErrorView {
    /// The number under which the error is catalogued.
    pub open spec fn code(self) -> int {
        match self {
            NameErrorView::Reserved { .. } => 304,
            NameErrorView::EmptyName => 600,
            NameErrorView::BadStart { .. } => 602,
            NameErrorView::ReservedBoolean { .. } => 604,
            NameErrorView::TooLong { .. } => 606,
            NameErrorView::BadChar { .. } => 608,
        }
    }

    /// The message of the error, without its number.
    pub open spec fn message(self) -> Seq<char> {
        match self {
            NameErrorView::Reserved { name } => {
                "names cannot be the same as built-in type names or constants, got "@ + name
            },
            NameErrorView::EmptyName => "type names must be nonempty"@,
            NameErrorView::BadStart { name } => {
                "type names must start with a letter or underscore, got "@ + name
            },
            NameErrorView::ReservedBoolean { name } => {
                "type names may not be yes or no got "@ + name
            },
            NameErrorView::TooLong { name, max, count } => {
                "type names may be at most "@ + decimal(max) + " characters long, got "@ + name
                    + " ("@ + decimal(count) + " characters)"@
            },
            NameErrorView::BadChar { name } => {
                "type names may only contain letters, digits, or underscores, got "@ + name
            },
        }
    }

    /// The error as it is reported: `#`, the number, a colon, the message.
    pub open spec fn text(self) -> Seq<char> {
        "#"@ + decimal(self.code() as nat) + ":"@ + self.message()
    }
}

impl NameError {
    /// The number under which the error is catalogued.
    pub fn code(&self) -> (code: i32)
        ensures
            code == self@.code(),
    {
        match self {
            NameError::Reserved { .. } => 304,
            NameError::EmptyName => 600,
            NameError::BadStart { .. } => 602,
            NameError::ReservedBoolean { .. } => 604,
            NameError::TooLong { .. } => 606,
            NameError::BadChar { .. } => 608,
        }
    }

    /// The message of the error, without its number.
    pub fn message(&self) -> (message: String)
        ensures
            message@ == self@.message(),
    {
        match self {
            NameError::Reserved { name } => {
                let mut s = String::from_str(
                    "names cannot be the same as built-in type names or constants, got ",
                );
                s.append(name.as_str());
                s
            },
            NameError::EmptyName => String::from_str("type names must be nonempty"),
            NameError::BadStart { name } => {
                let mut s = String::from_str(
                    "type names must start with a letter or underscore, got ",
                );
                s.append(name.as_str());
                s
            },
            NameError::ReservedBoolean { name } => {
                let mut s = String::from_str("type names may not be yes or no got ");
                s.append(name.as_str());
                s
            },
            NameError::TooLong { name, max, count } => {
                let mut s = String::from_str("type names may be at most ");
                push_decimal(&mut s, *max as u64);
                s.append(" characters long, got ");
                s.append(name.as_str());
                s.append(" (");
                push_decimal(&mut s, *count as u64);
                s.append(" characters)");
                s
            },
            NameError::BadChar { name } => {
                let mut s = String::from_str(
                    "type names may only contain letters, digits, or underscores, got ",
                );
                s.append(name.as_str());
                s
            },
        }
    }

    /// The error as it is reported: `#`, the number, a colon, the message.
    pub fn to_string(&self) -> (text: String)
        ensures
            text@ == self@.text(),
    {
        let mut s = String::from_str("#");
        push_decimal(&mut s, self.code() as u64);
        s.append(":");
        let message = self.message();
        s.append(message.as_str());
        s
    }
}

/// Why a collection refuses a value, or a record type a record.
#[derive(Debug)]
#[allow(inconsistent_fields)]
pub enum Error {
    /// A value or key is of kind `actual` where `expected` is asked for.
    TypeMismatch { expected: String, actual: String },
    /// A record has `actual` cells where its record type has `expected`
    /// fields.
    ArityMismatch { expected: usize, actual: usize },
    /// A record type without fields has no record of nulls.
    FieldlessRecord,
}

/// An `Error` over mathematical text and numbers.
#[allow(inconsistent_fields)]
pub enum ErrorView {
    TypeMismatch { expected: Seq<char>, actual: Seq<char> },
    ArityMismatch { expected: nat, actual: nat },
    FieldlessRecord,
}

impl View for Error {
    type V = ErrorView;

    open spec fn view(&self) -> ErrorView {
        match *self {
            Error::TypeMismatch { expected, actual } => ErrorView::TypeMismatch {
                expected: expected@,
                actual: actual@,
            },
            Error::ArityMismatch { expected, actual } => ErrorView::ArityMismatch {
                expected: expected as nat,
                actual: actual as nat,
            },
            Error::FieldlessRecord => ErrorView::FieldlessRecord,
        }
    }
}

/// How the lack of a record of nulls is reported.
pub const FIELDLESS_RECORD_TEXT: &'static str =
    "#352:can't create a record of nulls for a fieldless table's tclass";

impl ErrorView {
    /// The text under which the error is reported, for the error that has
    /// one: the lack of a record of nulls.
    pub open spec fn text(self) -> Option<Seq<char>> {
        match self {
            ErrorView::FieldlessRecord => Some(FIELDLESS_RECORD_TEXT@),
            _ => None,
        }
    }
}

impl Error {
    /// The text under which the error is reported, for the error that has
    /// one: the lack of a record of nulls.
    pub fn text(&self) -> (text: Option<String>)
        ensures
            string_view(text) == self@.text(),
    {
        match self {
            Error::FieldlessRecord => Some(String::from_str(FIELDLESS_RECORD_TEXT)),
            _ => None,
        }
    }
}

impl Clone for NameError {
    fn clone(&self) -> (copy: NameError)
        ensures
            copy@ == self@,
    {
        match self {
            NameError::Reserved { name } => NameError::Reserved { name: name.clone() },
            NameError::EmptyName => NameError::EmptyName,
            NameError::BadStart { name } => NameError::BadStart { name: name.clone() },
            NameError::ReservedBoolean { name } => NameError::ReservedBoolean {
                name: name.clone(),
            },
            NameError::TooLong { name, max, count } => NameError::TooLong {
                name: name.clone(),
                max: *max,
                count: *count,
            },
            NameError::BadChar { name } => NameError::BadChar { name: name.clone() },
        }
    }
}

impl Clone for Error {
    fn clone(&self) -> (copy: Error)
        ensures
            copy@ == self@,
    {
        match self {
            Error::TypeMismatch { expected, actual } => Error::TypeMismatch {
                expected: expected.clone(),
                actual: actual.clone(),
            },
            Error::ArityMismatch { expected, actual } => Error::ArityMismatch {
                expected: *expected,
                actual: *actual,
            },
            Error::FieldlessRecord => Error::FieldlessRecord,
        }
    }
}

} // verus!
