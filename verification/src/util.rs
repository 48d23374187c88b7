//! The rules that every type name, field name and table name obeys.

use vstd::prelude::*;
use vstd::std_specs::iter::IteratorSpec;
use vstd::string::StringExecFns;
use vstd::string::StrSliceExecFns;
use crate::constants::{
    is_reserved_word, BOOL_FALSE, BOOL_TRUE, MAX_IDENTIFIER_LEN, RESERVED_WORDS, VALUE_NAME_NULL,
    VTYPE_NAME_BOOL, VTYPE_NAME_BYTES, VTYPE_NAME_DATE, VTYPE_NAME_DATETIME, VTYPE_NAME_INT,
    VTYPE_NAME_LIST, VTYPE_NAME_MAP, VTYPE_NAME_REAL, VTYPE_NAME_STR, VTYPE_NAME_TABLE,
};
use crate::error::{NameError, NameErrorView};
use crate::text::{is_alphabetic, is_ascii_digit, is_letter, same_text};

verus! {

broadcast use vstd::string::group_string_axioms;

/// Whether a character may open a name: a letter or an underscore.
pub open spec fn is_name_start(c: char) -> bool {
    c == '_' || is_letter(c)
}

/// Whether a character may stand after the first of a name: a letter, one
/// of the digits 0 to 9, or an underscore.
pub open spec fn is_name_char(c: char) -> bool {
    c == '_' || is_letter(c) || is_ascii_digit(c)
}

/// Whether a text is one of the two boolean literals.
pub open spec fn is_boolean_word(s: Seq<char>) -> bool {
    s == BOOL_TRUE@ || s == BOOL_FALSE@
}

/// Why a text is no type name, or `None` if it is one. The rules are tried
/// in this order and the first that is broken decides.
pub open spec fn type_name_error(s: Seq<char>) -> Option<NameErrorView> {
    if s.len() == 0 {
        Some(NameErrorView::EmptyName)
    } else if !is_name_start(s[0]) {
        Some(NameErrorView::BadStart { name: s })
    } else if is_boolean_word(s) {
        Some(NameErrorView::ReservedBoolean { name: s })
    } else if s.len() > MAX_IDENTIFIER_LEN {
        Some(NameErrorView::TooLong { name: s, max: MAX_IDENTIFIER_LEN as nat, count: s.len() })
    } else if exists|i: int| 1 <= i < s.len() && !is_name_char(#[trigger] s[i]) {
        Some(NameErrorView::BadChar { name: s })
    } else {
        None
    }
}

/// Why a text is no name of a field or a record type, or `None` if it is
/// one: a type name that is no reserved word.
pub open spec fn name_error(s: Seq<char>) -> Option<NameErrorView> {
    match type_name_error(s) {
        Some(e) => Some(e),
        None => if is_reserved_word(s) {
            Some(NameErrorView::Reserved { name: s })
        } else {
            None
        },
    }
}

/// Whether a text is a type name.
pub open spec fn is_type_name(s: Seq<char>) -> bool {
    type_name_error(s) is None
}

/// Whether a text is a name for a field or a record type.
pub open spec fn is_name(s: Seq<char>) -> bool {
    name_error(s) is None
}

/// Accepts `name` as a type name, or says which rule it breaks first.
pub fn check_type_name(name: &str) -> (res: Result<(), NameError>)
    ensures
        match res {
            Ok(_) => type_name_error(name@) is None,
            Err(e) => type_name_error(name@) == Some(e@),
        },
{
    let count = name.unicode_len();
    if count == 0 {
        return Err(NameError::EmptyName);
    }
    let first = name.get_char(0);
    if !(first == '_' || is_alphabetic(first)) {
        return Err(NameError::BadStart { name: String::from_str(name) });
    }
    if same_text(name, BOOL_TRUE) || same_text(name, BOOL_FALSE) {
        return Err(NameError::ReservedBoolean { name: String::from_str(name) });
    }
    if count > MAX_IDENTIFIER_LEN {
        return Err(
            NameError::TooLong { name: String::from_str(name), max: MAX_IDENTIFIER_LEN, count },
        );
    }
    let mut chars = name.chars();
    let _ = chars.next();
    let ghost mut i: int = 1;
    loop
        invariant
            1 <= i <= name@.len(),
            name@.len() <= MAX_IDENTIFIER_LEN,
            is_name_start(name@[0]),
            !is_boolean_word(name@),
            chars.obeys_prophetic_iter_laws(),
            chars.remaining() == name@.skip(i),
            forall|j: int| 1 <= j < i ==> is_name_char(#[trigger] name@[j]),
        decreases name@.len() - i,
    {
        match chars.next() {
            None => {
                return Ok(());
            },
            Some(c) => {
                if !(c == '_' || is_alphabetic(c) || ('0' <= c && c <= '9')) {
                    assert(!is_name_char(name@[i]));
                    return Err(NameError::BadChar { name: String::from_str(name) });
                }
                proof {
                    assert(name@.skip(i).drop_first() == name@.skip(i + 1));
                    i = i + 1;
                }
            },
        }
    }
}

/// Whether `name` is one of the reserved words.
pub fn is_reserved(name: &str) -> (reserved: bool)
    ensures
        reserved == is_reserved_word(name@),
{
    let mut k: usize = 0;
    while k < 13
        invariant
            k <= 13,
            RESERVED_WORDS@.len() == 13,
            forall|j: int| 0 <= j < k ==> name@ != (#[trigger] RESERVED_WORDS@[j])@,
        decreases 13 - k,
    {
        if same_text(name, RESERVED_WORDS[k]) {
            return true;
        }
        k += 1;
    }
    false
}

/// Accepts `name` as the name of a field or a record type, or says which
/// rule it breaks first. Such a name is a type name that is no reserved
/// word.
pub fn check_name(name: &str) -> (res: Result<(), NameError>)
    ensures
        match res {
            Ok(_) => name_error(name@) is None,
            Err(e) => name_error(name@) == Some(e@),
        },
{
    match check_type_name(name) {
        Err(e) => Err(e),
        Ok(_) => {
            if is_reserved(name) {
                Err(NameError::Reserved { name: String::from_str(name) })
            } else {
                Ok(())
            }
        },
    }
}

/// Whether a text is the name of null or of one of the ten built-in types.
pub open spec fn is_builtin_type_name(s: Seq<char>) -> bool {
    ||| s == VALUE_NAME_NULL@
    ||| s == VTYPE_NAME_BOOL@
    ||| s == VTYPE_NAME_BYTES@
    ||| s == VTYPE_NAME_DATE@
    ||| s == VTYPE_NAME_DATETIME@
    ||| s == VTYPE_NAME_INT@
    ||| s == VTYPE_NAME_LIST@
    ||| s == VTYPE_NAME_MAP@
    ||| s == VTYPE_NAME_REAL@
    ||| s == VTYPE_NAME_STR@
    ||| s == VTYPE_NAME_TABLE@
}

/// A text is a type name exactly if it is not empty, starts with a letter
/// or an underscore, is neither boolean literal, has at most 60 characters,
/// and holds letters, digits from 0 to 9 and underscores only. Where it is
/// none, the first of these that fails decides the error.
pub proof fn type_names_are(s: Seq<char>)
    ensures
        is_type_name(s) <==> {
            &&& s.len() > 0
            &&& is_name_start(s[0])
            &&& !is_boolean_word(s)
            &&& s.len() <= 60
            &&& forall|i: int| 0 <= i < s.len() ==> is_name_char(#[trigger] s[i])
        },
        type_name_error(s) matches Some(e) ==> e.code() == (if s.len() == 0 {
            600int
        } else if !is_name_start(s[0]) {
            602
        } else if is_boolean_word(s) {
            604
        } else if s.len() > 60 {
            606
        } else {
            608
        }),
{
}

/// The empty text is refused as nonempty names are asked for, under number
/// 600.
pub proof fn empty_name_is_refused(s: Seq<char>)
    requires
        s.len() == 0,
    ensures
        type_name_error(s) == Some(NameErrorView::EmptyName),
        name_error(s) == Some(NameErrorView::EmptyName),
        NameErrorView::EmptyName.code() == 600,
{
}

/// A text that starts with anything but a letter or an underscore is
/// refused for its start, under number 602, whatever follows.
pub proof fn bad_start_is_refused(s: Seq<char>)
    requires
        s.len() >= 1,
        !is_name_start(s[0]),
    ensures
        type_name_error(s) == Some(NameErrorView::BadStart { name: s }),
        name_error(s) == Some(NameErrorView::BadStart { name: s }),
        (NameErrorView::BadStart { name: s }).code() == 602,
{
}

/// The two boolean literals are reserved words, and are refused as
/// boolean literals, under number 604, both as type names and as names.
pub proof fn boolean_words_are_refused(s: Seq<char>)
    requires
        s == "yes"@ || s == "no"@,
    ensures
        is_reserved_word(s),
        type_name_error(s) == Some(NameErrorView::ReservedBoolean { name: s }),
        name_error(s) == Some(NameErrorView::ReservedBoolean { name: s }),
        (NameErrorView::ReservedBoolean { name: s }).code() == 604,
{
    reveal_strlit("yes");
    reveal_strlit("no");
    assert(RESERVED_WORDS@[11]@ == "no"@);
    assert(RESERVED_WORDS@[12]@ == "yes"@);
}

/// A text of more than 60 characters that starts as a name does is refused
/// as too long, under number 606, with 60 and its own number of characters.
pub proof fn long_name_is_refused(s: Seq<char>)
    requires
        s.len() > 60,
        is_name_start(s[0]),
    ensures
        type_name_error(s) == Some((NameErrorView::TooLong { name: s, max: 60, count: s.len() })),
        name_error(s) == type_name_error(s),
        (NameErrorView::TooLong { name: s, max: 60, count: s.len() }).code() == 606,
{
    reveal_strlit("yes");
    reveal_strlit("no");
}

/// A text of at most 60 characters that starts as a name does and holds,
/// after its first character, one that is no letter, none of the digits 0
/// to 9 and no underscore is refused for that character, under number 608.
pub proof fn bad_char_is_refused(s: Seq<char>, i: int)
    requires
        1 <= i < s.len() <= 60,
        is_name_start(s[0]),
        !is_name_char(s[i]),
    ensures
        type_name_error(s) == Some(NameErrorView::BadChar { name: s }),
        name_error(s) == Some(NameErrorView::BadChar { name: s }),
        (NameErrorView::BadChar { name: s }).code() == 608,
{
    reveal_strlit("yes");
    reveal_strlit("no");
}

/// The name of null and the names of the ten built-in types are type
/// names, and are refused as names of fields and record types, under
/// number 304.
pub proof fn builtin_type_names_are_reserved(s: Seq<char>)
    requires
        is_builtin_type_name(s),
    ensures
        (type_name_error(s) is None),
        name_error(s) == Some(NameErrorView::Reserved { name: s }),
        (NameErrorView::Reserved { name: s }).code() == 304,
{
    reveal_strlit("yes");
    reveal_strlit("no");
    reveal_strlit("null");
    reveal_strlit("bool");
    reveal_strlit("bytes");
    reveal_strlit("date");
    reveal_strlit("datetime");
    reveal_strlit("int");
    reveal_strlit("list");
    reveal_strlit("map");
    reveal_strlit("real");
    reveal_strlit("str");
    reveal_strlit("table");
    assert(is_reserved_word(s)) by {
        assert(RESERVED_WORDS@[0]@ == "null"@);
        assert(RESERVED_WORDS@[1]@ == "bool"@);
        assert(RESERVED_WORDS@[2]@ == "bytes"@);
        assert(RESERVED_WORDS@[3]@ == "date"@);
        assert(RESERVED_WORDS@[4]@ == "datetime"@);
        assert(RESERVED_WORDS@[5]@ == "int"@);
        assert(RESERVED_WORDS@[6]@ == "list"@);
        assert(RESERVED_WORDS@[7]@ == "map"@);
        assert(RESERVED_WORDS@[8]@ == "real"@);
        assert(RESERVED_WORDS@[9]@ == "str"@);
        assert(RESERVED_WORDS@[10]@ == "table"@);
    }
    assert forall|i: int| 0 <= i < s.len() implies is_letter(#[trigger] s[i]) by {
    }
}

} // verus!
