//! A map: entries from keys to values, no key twice, keys and values of one
//! kind each where a type is declared for them.

use vstd::prelude::*;
use vstd::string::StringExecFns;
use crate::error::{Error, ErrorView, NameError, NameErrorView};
use crate::list::{declared_type, declared_type_error};
use crate::text::{lent_text, owned_text, same_text, string_view, text_view};
use crate::util::is_type_name;
use crate::value::{check_item, mismatch, not_a_key, Key, KeyView, Value};

verus! {

/// Entries from keys to optional values, in the order in which their keys
/// first came, with optional key type, value type and comment. The entries
/// lie in a vector and a key is found by `Key::same`, so that which keys
/// count as one is what is stated here and rests on no hasher.
#[derive(Debug)]
pub struct Mapping {
    ktype: Option<String>,
    vtype: Option<String>,
    comment: Option<String>,
    data: Vec<(Key, Option<Value>)>,
}

/// A `Mapping` over mathematical text and sequences.
pub struct MappingView {
    pub ktype: Option<Seq<char>>,
    pub vtype: Option<Seq<char>>,
    pub comment: Option<Seq<char>>,
    pub entries: Seq<(Key, Option<Value>)>,
}

/// Whether no two entries have the same key.
pub open spec fn keys_differ(entries: Seq<(Key, Option<Value>)>) -> bool {
    forall|i: int, j: int|
        0 <= i < j < entries.len() ==> (#[trigger] entries[i]).0@ != (#[trigger] entries[j]).0@
}

/// Whether an entry has the key.
pub open spec fn has_key(entries: Seq<(Key, Option<Value>)>, key: KeyView, i: int) -> bool {
    0 <= i < entries.len() && entries[i].0@ == key
}

/// Whether an entry is the first that has the key.
pub open spec fn is_first(entries: Seq<(Key, Option<Value>)>, key: KeyView, i: int) -> bool {
    has_key(entries, key, i) && forall|j: int| 0 <= j < i ==> !has_key(entries, key, j)
}

/// The place of the first entry with the key, if there is one.
pub open spec fn position(entries: Seq<(Key, Option<Value>)>, key: KeyView) -> Option<int> {
    if exists|i: int| has_key(entries, key, i) {
        Some(choose|i: int| is_first(entries, key, i))
    } else {
        None
    }
}

/// The value under the key, if the key has an entry.
pub open spec fn lookup(entries: Seq<(Key, Option<Value>)>, key: KeyView) -> Option<Option<Value>> {
    match position(entries, key) {
        Some(i) => Some(entries[i].1),
        None => None,
    }
}

/// The entries after the key is given the value: in the key's entry if it
/// has one, else in a new last entry.
pub open spec fn put(entries: Seq<(Key, Option<Value>)>, key: Key, value: Option<Value>) -> Seq<
    (Key, Option<Value>),
> {
    match position(entries, key@) {
        Some(i) => entries.update(i, (key, value)),
        None => entries.push((key, value)),
    }
}

impl MappingView {
    /// Whether the declared types are type names, no key occurs twice and
    /// every key and value is accepted by its declared type.
    pub open spec fn is_valid(self) -> bool {
        &&& self.ktype matches Some(t) ==> is_type_name(t)
        &&& self.vtype matches Some(t) ==> is_type_name(t)
        &&& keys_differ(self.entries)
        &&& forall|i: int|
            0 <= i < self.entries.len() ==> entry_mismatch(
                self.ktype,
                self.vtype,
                (#[trigger] self.entries[i]).0,
                self.entries[i].1,
            ) is None
    }
}

/// What is wrong with the declared types of a map, if anything: with the
/// key type, else with the value type.
pub open spec fn map_types_error(ktype: Option<Seq<char>>, vtype: Option<Seq<char>>) -> Option<
    NameErrorView,
> {
    match declared_type_error(ktype) {
        Some(e) => Some(e),
        None => declared_type_error(vtype),
    }
}

/// The first mismatch of an entry with the declared types: of the key,
/// else of the value.
pub open spec fn entry_mismatch(
    ktype: Option<Seq<char>>,
    vtype: Option<Seq<char>>,
    key: Key,
    value: Option<Value>,
) -> Option<ErrorView> {
    match mismatch(ktype, Some(key.value())) {
        Some(e) => Some(e),
        None => mismatch(vtype, value),
    }
}

/// Where some entry has the key, some entry is the first that has it.
proof fn some_is_first(entries: Seq<(Key, Option<Value>)>, key: KeyView, i: int)
    requires
        has_key(entries, key, i),
    ensures
        exists|f: int| is_first(entries, key, f),
    decreases i,
{
    if exists|j: int| 0 <= j < i && has_key(entries, key, j) {
        let j = choose|j: int| 0 <= j < i && has_key(entries, key, j);
        some_is_first(entries, key, j);
    } else {
        assert(is_first(entries, key, i));
    }
}

/// The first entry that has a key is the key's place.
pub proof fn position_is(entries: Seq<(Key, Option<Value>)>, key: KeyView, i: int)
    requires
        is_first(entries, key, i),
    ensures
        position(entries, key) == Some(i),
{
    let c = choose|c: int| is_first(entries, key, c);
    if c < i {
        assert(!has_key(entries, key, c));
    }
    if i < c {
        assert(!has_key(entries, key, i));
    }
}

/// A key's place, where it has one, is the first entry that has the key.
pub proof fn position_is_first(entries: Seq<(Key, Option<Value>)>, key: KeyView)
    ensures
        match position(entries, key) {
            Some(i) => is_first(entries, key, i),
            None => forall|j: int| !has_key(entries, key, j),
        },
{
    if exists|i: int| has_key(entries, key, i) {
        let i = choose|i: int| has_key(entries, key, i);
        some_is_first(entries, key, i);
    }
}

/// Putting a value under a key makes the value the one found under the
/// key and leaves what is found under every other key as it was: the last
/// value put under a key wins. The number of entries grows by one if the
/// key is new, and stays if not; keys that differed still differ.
pub proof fn put_then_lookup(
    entries: Seq<(Key, Option<Value>)>,
    key: Key,
    value: Option<Value>,
    other: KeyView,
)
    ensures
        lookup(put(entries, key, value), key@) == Some(value),
        other != key@ ==> lookup(put(entries, key, value), other) == lookup(entries, other),
        put(entries, key, value).len() == if lookup(entries, key@) is Some {
            entries.len()
        } else {
            entries.len() + 1
        },
        keys_differ(entries) ==> keys_differ(put(entries, key, value)),
{
    let after = put(entries, key, value);
    position_is_first(entries, key@);
    position_is_first(entries, other);
    let n = entries.len() as int;
    let at = match position(entries, key@) {
        Some(i) => i,
        None => n,
    };
    assert(after[at] == (key, value));
    assert forall|j: int| 0 <= j < after.len() && j != at implies after[j] == entries[j] by {
    }
    assert(is_first(after, key@, at)) by {
        assert forall|j: int| 0 <= j < at implies !has_key(after, key@, j) by {
            assert(!has_key(entries, key@, j));
        }
    }
    position_is(after, key@, at);
    if other != key@ {
        match position(entries, other) {
            Some(j) => {
                assert(j != at);
                assert(is_first(after, other, j)) by {
                    assert forall|m: int| 0 <= m < j implies !has_key(after, other, m) by {
                        assert(!has_key(entries, other, m));
                    }
                }
                position_is(after, other, j);
            },
            None => {
                assert forall|m: int| !has_key(after, other, m) by {
                    if has_key(after, other, m) {
                        assert(m != at);
                        assert(has_key(entries, other, m));
                    }
                }
            },
        }
    }
    if keys_differ(entries) {
        assert forall|a: int, b: int| 0 <= a < b < after.len() implies (#[trigger] after[a]).0@ != (
        #[trigger] after[b]).0@ by {
            if position(entries, key@) is Some {
                assert(entries[a].0@ != entries[b].0@);
            } else if b == n {
                assert(!has_key(entries, key@, a));
            } else {
                assert(entries[a].0@ != entries[b].0@);
            }
        }
    }
}

impl View for Mapping {
    type V = MappingView;

    closed spec fn view(&self) -> MappingView {
        MappingView {
            ktype: string_view(self.ktype),
            vtype: string_view(self.vtype),
            comment: string_view(self.comment),
            entries: self.data@,
        }
    }
}

impl Mapping {
    /// Makes an empty map whose keys are of type `ktype` and whose values
    /// are of type `vtype`, each of any type where that is `None`; or says
    /// what is wrong with `ktype`, else with `vtype`.
    pub fn new(ktype: Option<&str>, vtype: Option<&str>, comment: Option<&str>) -> (res: Result<
        Mapping,
        NameError,
    >)
        ensures
            match res {
                Ok(map) => map_types_error(text_view(ktype), text_view(vtype)) is None && map@ == (
                MappingView {
                    ktype: text_view(ktype),
                    vtype: text_view(vtype),
                    comment: text_view(comment),
                    entries: Seq::empty(),
                }) && map@.is_valid(),
                Err(e) => map_types_error(text_view(ktype), text_view(vtype)) == Some(e@),
            },
    {
        match declared_type(ktype) {
            Err(e) => Err(e),
            Ok(ktype) => match declared_type(vtype) {
                Err(e) => Err(e),
                Ok(vtype) => Ok(
                    Mapping { ktype, vtype, comment: owned_text(comment), data: Vec::new() },
                ),
            },
        }
    }

    /// The type of the keys, or `None` if they may be of any kind of key.
    pub fn ktype(&self) -> (ktype: Option<&str>)
        ensures
            text_view(ktype) == self@.ktype,
    {
        lent_text(&self.ktype)
    }

    /// The type of the values, or `None` if they may be of any type.
    pub fn vtype(&self) -> (vtype: Option<&str>)
        ensures
            text_view(vtype) == self@.vtype,
    {
        lent_text(&self.vtype)
    }

    /// The map's comment.
    pub fn comment(&self) -> (comment: Option<&str>)
        ensures
            text_view(comment) == self@.comment,
    {
        lent_text(&self.comment)
    }

    /// How many entries the map has.
    pub fn len(&self) -> (len: usize)
        ensures
            len == self@.entries.len(),
    {
        self.data.len()
    }

    /// Whether the map has no entries.
    pub fn is_empty(&self) -> (empty: bool)
        ensures
            empty == (self@.entries.len() == 0),
    {
        self.data.len() == 0
    }

    /// The entry at `index` in the order in which the keys first came, or
    /// `None` where the map ends before it.
    pub fn entry(&self, index: usize) -> (entry: Option<(&Key, &Option<Value>)>)
        ensures
            match entry {
                Some((key, value)) => index < self@.entries.len() && (*key, *value)
                    == self@.entries[index as int],
                None => index >= self@.entries.len(),
            },
    {
        if index < self.data.len() {
            let pair = &self.data[index];
            Some((&pair.0, &pair.1))
        } else {
            None
        }
    }

    /// Where the key's first entry stands, if it has one.
    fn find(&self, key: &Key) -> (found: Option<usize>)
        ensures
            match found {
                Some(i) => position(self@.entries, key@) == Some(i as int) && i
                    < self@.entries.len(),
                None => position(self@.entries, key@) is None,
            },
    {
        let mut k: usize = 0;
        while k < self.data.len()
            invariant
                k <= self.data@.len(),
                forall|j: int| 0 <= j < k ==> !has_key(self.data@, key@, j),
            decreases self.data@.len() - k,
        {
            if self.data[k].0.same(key) {
                proof {
                    position_is(self.data@, key@, k as int);
                }
                return Some(k);
            }
            k += 1;
        }
        None
    }

    /// The value under the key, or `None` if the key has no entry.
    pub fn get(&self, key: &Key) -> (value: Option<&Option<Value>>)
        ensures
            match value {
                Some(v) => lookup(self@.entries, key@) == Some(*v),
                None => lookup(self@.entries, key@) is None,
            },
    {
        match self.find(key) {
            Some(i) => Some(&self.data[i].1),
            None => None,
        }
    }

    /// Whether the key has an entry.
    pub fn contains_key(&self, key: &Key) -> (found: bool)
        ensures
            found == (lookup(self@.entries, key@) is Some),
    {
        self.find(key).is_some()
    }

    /// Puts the value under the key if the map's types accept both, in
    /// place of the value that the key had if it had one; else leaves the
    /// map as it is and gives the first mismatch.
    pub fn insert(&mut self, key: Key, value: Option<Value>) -> (res: Result<(), Error>)
        ensures
            match res {
                Ok(_) => entry_mismatch(old(self)@.ktype, old(self)@.vtype, key, value) is None
                    && final(self)@ == (MappingView {
                    entries: put(old(self)@.entries, key, value),
                    ..old(self)@
                }),
                Err(e) => entry_mismatch(old(self)@.ktype, old(self)@.vtype, key, value) == Some(
                    e@,
                ) && final(self)@ == old(self)@,
            },
            old(self)@.is_valid() ==> final(self)@.is_valid(),
    {
        let kind = key.kind_name();
        match lent_text(&self.ktype) {
            Some(t) => {
                if !same_text(kind, t) {
                    return Err(
                        Error::TypeMismatch {
                            expected: String::from_str(t),
                            actual: String::from_str(kind),
                        },
                    );
                }
            },
            None => {},
        }
        match check_item(lent_text(&self.vtype), &value) {
            Err(e) => {
                return Err(e);
            },
            Ok(_) => {},
        }
        let found = self.find(&key);
        proof {
            put_then_lookup(self@.entries, key, value, key@);
        }
        let ghost before = self@;
        match found {
            Some(i) => {
                self.data.set(i, (key, value));
            },
            None => {
                self.data.push((key, value));
            },
        }
        proof {
            if before.is_valid() {
                let after = self@.entries;
                assert forall|i: int| 0 <= i < after.len() implies entry_mismatch(
                    self@.ktype,
                    self@.vtype,
                    (#[trigger] after[i]).0,
                    after[i].1,
                ) is None by {
                    let at = match found {
                        Some(at) => at as int,
                        None => before.entries.len() as int,
                    };
                    if i != at {
                        assert(after[i] == before.entries[i]);
                    }
                }
            }
        }
        Ok(())
    }

    /// Puts the value under the key if the key is of one of the four kinds
    /// of keys and the map's types accept both; else leaves the map as it
    /// is and gives the first mismatch. A value of another kind is never
    /// taken as a key, whatever key type the map declares.
    pub fn insert_value(&mut self, key: Value, value: Option<Value>) -> (res: Result<(), Error>)
        ensures
            match (key.as_key(), res) {
                (Some(k), Ok(_)) => entry_mismatch(old(self)@.ktype, old(self)@.vtype, k, value)
                    is None && final(self)@ == (MappingView {
                    entries: put(old(self)@.entries, k, value),
                    ..old(self)@
                }),
                (Some(k), Err(e)) => entry_mismatch(old(self)@.ktype, old(self)@.vtype, k, value)
                    == Some(e@) && final(self)@ == old(self)@,
                (None, Ok(_)) => false,
                (None, Err(e)) => e@ == not_a_key(key) && final(self)@ == old(self)@,
            },
            old(self)@.is_valid() ==> final(self)@.is_valid(),
    {
        match Key::from_value(key) {
            Err(e) => Err(e),
            Ok(k) => self.insert(k, value),
        }
    }
}

} // verus!
