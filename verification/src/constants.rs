//! Limits, type names and reserved words of the format.

use vstd::prelude::*;

verus! {

/// The greatest number of characters that an identifier may have.
pub const MAX_IDENTIFIER_LEN: usize = 60;

/// How a date is written: year, month and day.
pub const ISO8601_DATE: &'static str = "%Y-%m-%d";

/// How a date with a time is written.
pub const ISO8601_DATETIME: &'static str = "%Y-%m-%dT%H:%M:%S";

pub const VALUE_NAME_NULL: &'static str = "null";

pub const VTYPE_NAME_BOOL: &'static str = "bool";

pub const VTYPE_NAME_BYTES: &'static str = "bytes";

pub const VTYPE_NAME_DATE: &'static str = "date";

pub const VTYPE_NAME_DATETIME: &'static str = "datetime";

pub const VTYPE_NAME_INT: &'static str = "int";

pub const VTYPE_NAME_LIST: &'static str = "list";

pub const VTYPE_NAME_MAP: &'static str = "map";

pub const VTYPE_NAME_REAL: &'static str = "real";

pub const VTYPE_NAME_STR: &'static str = "str";

pub const VTYPE_NAME_TABLE: &'static str = "table";

pub const BOOL_FALSE: &'static str = "no";

pub const BOOL_TRUE: &'static str = "yes";

/// The words that no field or record type may be called.
pub const RESERVED_WORDS: [&'static str; 13] = [
    VALUE_NAME_NULL,
    VTYPE_NAME_BOOL,
    VTYPE_NAME_BYTES,
    VTYPE_NAME_DATE,
    VTYPE_NAME_DATETIME,
    VTYPE_NAME_INT,
    VTYPE_NAME_LIST,
    VTYPE_NAME_MAP,
    VTYPE_NAME_REAL,
    VTYPE_NAME_STR,
    VTYPE_NAME_TABLE,
    BOOL_FALSE,
    BOOL_TRUE,
];

/// The type names that a map's keys may have.
pub const KTYPES: [&'static str; 4] = [
    VTYPE_NAME_BYTES,
    VTYPE_NAME_DATE,
    VTYPE_NAME_INT,
    VTYPE_NAME_STR,
];

/// The type names of the values other than null.
pub const VTYPES: [&'static str; 10] = [
    VTYPE_NAME_BOOL,
    VTYPE_NAME_BYTES,
    VTYPE_NAME_DATE,
    VTYPE_NAME_DATETIME,
    VTYPE_NAME_INT,
    VTYPE_NAME_LIST,
    VTYPE_NAME_MAP,
    VTYPE_NAME_REAL,
    VTYPE_NAME_STR,
    VTYPE_NAME_TABLE,
];

/// Whether a text is one of the reserved words.
pub open spec fn is_reserved_word(s: Seq<char>) -> bool {
    exists|i: int| 0 <= i < RESERVED_WORDS@.len() && s == (#[trigger] RESERVED_WORDS@[i])@
}

} // verus!
