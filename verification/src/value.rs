//! The values of the format: eleven kinds, of which four may serve as the
//! keys of a map, four are plain scalars and three are collections.

use vstd::prelude::*;
use vstd::string::StringExecFns;
use crate::constants::{
    VALUE_NAME_NULL, VTYPE_NAME_BOOL, VTYPE_NAME_BYTES, VTYPE_NAME_DATE, VTYPE_NAME_DATETIME,
    VTYPE_NAME_INT, VTYPE_NAME_LIST, VTYPE_NAME_MAP, VTYPE_NAME_REAL, VTYPE_NAME_STR,
    VTYPE_NAME_TABLE,
};
use crate::date::{Date, DateTime};
use crate::error::{Error, ErrorView};
use crate::list::List;
use crate::map::Mapping;
use crate::table::Table;
use crate::text::{same_text, text_view};

verus! {

/// A 64-bit binary floating-point number, held by its bits.
#[derive(Clone, Copy, Debug)]
pub struct Real {
    bits: u64,
}

impl View for Real {
    type V = u64;

    closed spec fn view(&self) -> u64 {
        self.bits
    }
}

impl Real {
    /// The number with the given bits.
    pub fn from_bits(bits: u64) -> (number: Real)
        ensures
            number@ == bits,
    {
        Real { bits }
    }

    /// The number's bits.
    pub fn to_bits(&self) -> (bits: u64)
        ensures
            bits == self@,
    {
        self.bits
    }
}

/// A value of one of the eleven kinds.
#[derive(Debug)]
pub enum Value {
    Null,
    Bool(bool),
    Bytes(Vec<u8>),
    Date(Date),
    DateTime(DateTime),
    Int(i64),
    List(List),
    Mapping(Mapping),
    Real(Real),
    Str(String),
    Table(Table),
}

/// A value that is neither a key nor a collection.
#[derive(Clone, Copy, Debug)]
pub enum Scalar {
    Null,
    Bool(bool),
    DateTime(DateTime),
    Real(Real),
}

/// A value that may serve as the key of a map.
#[derive(Debug)]
pub enum Key {
    Bytes(Vec<u8>),
    Date(Date),
    Int(i64),
    Str(String),
}

/// A value that holds other values.
#[derive(Debug)]
pub enum Collection {
    List(List),
    Mapping(Mapping),
    Table(Table),
}

/// A `Key` over mathematical sequences.
pub enum KeyView {
    Bytes(Seq<u8>),
    Date(Date),
    Int(i64),
    Str(Seq<char>),
}

impl View for Key {
    type V = KeyView;

    open spec fn view(&self) -> KeyView {
        match *self {
            Key::Bytes(b) => KeyView::Bytes(b@),
            Key::Date(d) => KeyView::Date(d),
            Key::Int(i) => KeyView::Int(i),
            Key::Str(s) => KeyView::Str(s@),
        }
    }
}

/// What is asked for where only a key will do.
pub const KEY_KINDS: &'static str = "bytes, date, int or str";

/// The mismatch between the kinds of keys and the kind of a value that is
/// no key.
pub open spec fn not_a_key(value: Value) -> ErrorView {
    ErrorView::TypeMismatch { expected: KEY_KINDS@, actual: value.kind() }
}

impl Value {
    /// The name of the value's kind.
    pub open spec fn kind(self) -> Seq<char> {
        match self {
            Value::Null => VALUE_NAME_NULL@,
            Value::Bool(_) => VTYPE_NAME_BOOL@,
            Value::Bytes(_) => VTYPE_NAME_BYTES@,
            Value::Date(_) => VTYPE_NAME_DATE@,
            Value::DateTime(_) => VTYPE_NAME_DATETIME@,
            Value::Int(_) => VTYPE_NAME_INT@,
            Value::List(_) => VTYPE_NAME_LIST@,
            Value::Mapping(_) => VTYPE_NAME_MAP@,
            Value::Real(_) => VTYPE_NAME_REAL@,
            Value::Str(_) => VTYPE_NAME_STR@,
            Value::Table(_) => VTYPE_NAME_TABLE@,
        }
    }

    /// Whether the value is of one of the four kinds of keys.
    pub open spec fn is_key(self) -> bool {
        self is Bytes || self is Date || self is Int || self is Str
    }

    /// The value as a key, if it is of one of the four kinds of keys.
    pub open spec fn as_key(self) -> Option<Key> {
        match self {
            Value::Bytes(b) => Some(Key::Bytes(b)),
            Value::Date(d) => Some(Key::Date(d)),
            Value::Int(i) => Some(Key::Int(i)),
            Value::Str(s) => Some(Key::Str(s)),
            _ => None,
        }
    }

    /// The name of the value's kind.
    pub fn kind_name(&self) -> (name: &'static str)
        ensures
            name@ == self.kind(),
    {
        match self {
            Value::Null => VALUE_NAME_NULL,
            Value::Bool(_) => VTYPE_NAME_BOOL,
            Value::Bytes(_) => VTYPE_NAME_BYTES,
            Value::Date(_) => VTYPE_NAME_DATE,
            Value::DateTime(_) => VTYPE_NAME_DATETIME,
            Value::Int(_) => VTYPE_NAME_INT,
            Value::List(_) => VTYPE_NAME_LIST,
            Value::Mapping(_) => VTYPE_NAME_MAP,
            Value::Real(_) => VTYPE_NAME_REAL,
            Value::Str(_) => VTYPE_NAME_STR,
            Value::Table(_) => VTYPE_NAME_TABLE,
        }
    }
}

impl Key {
    /// The key as a value.
    pub open spec fn value(self) -> Value {
        match self {
            Key::Bytes(b) => Value::Bytes(b),
            Key::Date(d) => Value::Date(d),
            Key::Int(i) => Value::Int(i),
            Key::Str(s) => Value::Str(s),
        }
    }

    /// The name of the key's kind.
    pub fn kind_name(&self) -> (name: &'static str)
        ensures
            name@ == self.value().kind(),
    {
        match self {
            Key::Bytes(_) => VTYPE_NAME_BYTES,
            Key::Date(_) => VTYPE_NAME_DATE,
            Key::Int(_) => VTYPE_NAME_INT,
            Key::Str(_) => VTYPE_NAME_STR,
        }
    }

    /// Whether two keys are of one kind and hold the same.
    pub fn same(&self, other: &Key) -> (same: bool)
        ensures
            same == (self@ == other@),
    {
        match (self, other) {
            (Key::Bytes(a), Key::Bytes(b)) => same_bytes(a, b),
            (Key::Date(a), Key::Date(b)) => *a == *b,
            (Key::Int(a), Key::Int(b)) => *a == *b,
            (Key::Str(a), Key::Str(b)) => same_text(a.as_str(), b.as_str()),
            _ => false,
        }
    }

    /// The value as a key, if it is of one of the four kinds of keys; else
    /// the mismatch between `KEY_KINDS` and the value's kind.
    pub fn from_value(value: Value) -> (res: Result<Key, Error>)
        ensures
            match res {
                Ok(key) => value.as_key() == Some(key),
                Err(e) => value.as_key() is None && e@ == not_a_key(value),
            },
    {
        match value {
            Value::Bytes(b) => Ok(Key::Bytes(b)),
            Value::Date(d) => Ok(Key::Date(d)),
            Value::Int(i) => Ok(Key::Int(i)),
            Value::Str(s) => Ok(Key::Str(s)),
            other => Err(
                Error::TypeMismatch {
                    expected: String::from_str(KEY_KINDS),
                    actual: String::from_str(other.kind_name()),
                },
            ),
        }
    }
}

impl Clone for Key {
    fn clone(&self) -> (copy: Key)
        ensures
            copy@ == self@,
    {
        match self {
            Key::Bytes(b) => Key::Bytes(b.clone()),
            Key::Date(d) => Key::Date(*d),
            Key::Int(i) => Key::Int(*i),
            Key::Str(s) => Key::Str(s.clone()),
        }
    }
}

/// A key as a value is of a kind of keys, and is that key again as a key:
/// nothing is lost on the way from a key to a value. A value that is no
/// key was made from no key.
pub proof fn keys_widen_without_loss(key: Key, value: Value)
    ensures
        key.value().is_key(),
        key.value().as_key() == Some(key),
        value.is_key() <==> value.as_key() is Some,
        value.as_key() matches Some(k) ==> k.value() == value,
{
}

/// Whether two vectors hold the same bytes.
pub fn same_bytes(a: &Vec<u8>, b: &Vec<u8>) -> (same: bool)
    ensures
        same == (a@ == b@),
{
    if a.len() != b.len() {
        return false;
    }
    let mut k: usize = 0;
    while k < a.len()
        invariant
            k <= a@.len(),
            a@.len() == b@.len(),
            forall|j: int| 0 <= j < k ==> a@[j] == b@[j],
        decreases a@.len() - k,
    {
        if a[k] != b[k] {
            return false;
        }
        k += 1;
    }
    assert(a@ =~= b@);
    true
}

impl From<Scalar> for Value {
    fn from(scalar: Scalar) -> (value: Value) {
        match scalar {
            Scalar::Null => Value::Null,
            Scalar::Bool(b) => Value::Bool(b),
            Scalar::DateTime(dt) => Value::DateTime(dt),
            Scalar::Real(r) => Value::Real(r),
        }
    }
}

impl vstd::std_specs::convert::FromSpecImpl<Scalar> for Value {
    open spec fn obeys_from_spec() -> bool {
        true
    }

    open spec fn from_spec(scalar: Scalar) -> Value {
        match scalar {
            Scalar::Null => Value::Null,
            Scalar::Bool(b) => Value::Bool(b),
            Scalar::DateTime(dt) => Value::DateTime(dt),
            Scalar::Real(r) => Value::Real(r),
        }
    }
}

impl From<Key> for Value {
    fn from(key: Key) -> (value: Value) {
        match key {
            Key::Bytes(b) => Value::Bytes(b),
            Key::Date(d) => Value::Date(d),
            Key::Int(i) => Value::Int(i),
            Key::Str(s) => Value::Str(s),
        }
    }
}

impl vstd::std_specs::convert::FromSpecImpl<Key> for Value {
    open spec fn obeys_from_spec() -> bool {
        true
    }

    open spec fn from_spec(key: Key) -> Value {
        key.value()
    }
}

impl From<Collection> for Value {
    fn from(collection: Collection) -> (value: Value) {
        match collection {
            Collection::List(lst) => Value::List(lst),
            Collection::Mapping(m) => Value::Mapping(m),
            Collection::Table(t) => Value::Table(t),
        }
    }
}

impl vstd::std_specs::convert::FromSpecImpl<Collection> for Value {
    open spec fn obeys_from_spec() -> bool {
        true
    }

    open spec fn from_spec(collection: Collection) -> Value {
        match collection {
            Collection::List(lst) => Value::List(lst),
            Collection::Mapping(m) => Value::Mapping(m),
            Collection::Table(t) => Value::Table(t),
        }
    }
}

/// The mismatch between a slot's declared type and an item, or `None`
/// where the slot takes the item: an absent item always, any item where no
/// type is declared, else an item of the declared kind.
pub open spec fn mismatch(vtype: Option<Seq<char>>, item: Option<Value>) -> Option<ErrorView> {
    match (vtype, item) {
        (Some(t), Some(v)) => if v.kind() == t {
            None
        } else {
            Some(ErrorView::TypeMismatch { expected: t, actual: v.kind() })
        },
        _ => None,
    }
}

/// Whether a slot of the declared type takes the item.
pub open spec fn accepts(vtype: Option<Seq<char>>, item: Option<Value>) -> bool {
    mismatch(vtype, item) is None
}

/// Accepts the item for a slot of the declared type, or gives the mismatch
/// between the declared type and the item's kind.
pub fn check_item(vtype: Option<&str>, item: &Option<Value>) -> (res: Result<(), Error>)
    ensures
        match res {
            Ok(_) => mismatch(text_view(vtype), *item) is None,
            Err(e) => mismatch(text_view(vtype), *item) == Some(e@),
        },
{
    match (vtype, item) {
        (Some(t), Some(v)) => {
            let kind = v.kind_name();
            if same_text(kind, t) {
                Ok(())
            } else {
                Err(
                    Error::TypeMismatch {
                        expected: String::from_str(t),
                        actual: String::from_str(kind),
                    },
                )
            }
        },
        _ => Ok(()),
    }
}

} // verus!
