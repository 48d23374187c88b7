//! A list: values in order, all of one kind where a value type is declared.

use vstd::prelude::*;
use vstd::string::StringExecFns;
use crate::error::{Error, NameError, NameErrorView};
use crate::util::{check_type_name, is_type_name, type_name_error};
use crate::text::{lent_text, owned_text, string_view, text_view};
use crate::value::{accepts, check_item, mismatch, Value};

verus! {

/// An ordered sequence of optional values with an optional value type and
/// comment. Every item that is present is of the declared type's kind.
#[derive(Debug)]
pub struct List {
    vtype: Option<String>,
    comment: Option<String>,
    values: Vec<Option<Value>>,
}

/// A `List` over mathematical text and sequences.
pub struct ListView {
    pub vtype: Option<Seq<char>>,
    pub comment: Option<Seq<char>>,
    pub items: Seq<Option<Value>>,
}

impl ListView {
    /// Whether the declared type is a type name and every item is accepted
    /// by it.
    pub open spec fn is_valid(self) -> bool {
        &&& self.vtype matches Some(t) ==> is_type_name(t)
        &&& forall|i: int| 0 <= i < self.items.len() ==> accepts(self.vtype, #[trigger] self.items[i])
    }
}

/// Why no collection can declare this type, or `None` if one can.
pub open spec fn declared_type_error(vtype: Option<Seq<char>>) -> Option<NameErrorView> {
    match vtype {
        Some(t) => type_name_error(t),
        None => None,
    }
}

/// Accepts an optional type name and makes a string of it, or says what
/// is wrong with it.
pub fn declared_type(vtype: Option<&str>) -> (res: Result<Option<String>, NameError>)
    ensures
        match res {
            Ok(t) => declared_type_error(text_view(vtype)) is None && string_view(t) == text_view(
                vtype,
            ),
            Err(e) => declared_type_error(text_view(vtype)) == Some(e@),
        },
{
    match vtype {
        None => Ok(None),
        Some(t) => match check_type_name(t) {
            Err(e) => Err(e),
            Ok(_) => Ok(Some(String::from_str(t))),
        },
    }
}

impl View for List {
    type V = ListView;

    closed spec fn view(&self) -> ListView {
        ListView {
            vtype: string_view(self.vtype),
            comment: string_view(self.comment),
            items: self.values@,
        }
    }
}

impl List {
    /// Makes an empty list whose items are of type `vtype`, or of any type
    /// where that is `None`; or says what is wrong with `vtype`.
    pub fn new(vtype: Option<&str>, comment: Option<&str>) -> (res: Result<List, NameError>)
        ensures
            match res {
                Ok(list) => declared_type_error(text_view(vtype)) is None && list@ == (ListView {
                    vtype: text_view(vtype),
                    comment: text_view(comment),
                    items: Seq::empty(),
                }) && list@.is_valid(),
                Err(e) => declared_type_error(text_view(vtype)) == Some(e@),
            },
    {
        match declared_type(vtype) {
            Err(e) => Err(e),
            Ok(vtype) => Ok(List { vtype, comment: owned_text(comment), values: Vec::new() }),
        }
    }

    /// The type of the items, or `None` if they may be of any type.
    pub fn vtype(&self) -> (vtype: Option<&str>)
        ensures
            text_view(vtype) == self@.vtype,
    {
        lent_text(&self.vtype)
    }

    /// The list's comment.
    pub fn comment(&self) -> (comment: Option<&str>)
        ensures
            text_view(comment) == self@.comment,
    {
        lent_text(&self.comment)
    }

    /// How many items the list has.
    pub fn len(&self) -> (len: usize)
        ensures
            len == self@.items.len(),
    {
        self.values.len()
    }

    /// Whether the list has no items.
    pub fn is_empty(&self) -> (empty: bool)
        ensures
            empty == (self@.items.len() == 0),
    {
        self.values.len() == 0
    }

    /// The item at `index`, or `None` where the list ends before it.
    pub fn get(&self, index: usize) -> (item: Option<&Option<Value>>)
        ensures
            match item {
                Some(item) => index < self@.items.len() && *item == self@.items[index as int],
                None => index >= self@.items.len(),
            },
    {
        if index < self.values.len() {
            Some(&self.values[index])
        } else {
            None
        }
    }

    /// Appends the item if the list's type accepts it; else leaves the list
    /// as it is and gives the mismatch.
    pub fn push(&mut self, item: Option<Value>) -> (res: Result<(), Error>)
        ensures
            match res {
                Ok(_) => mismatch(old(self)@.vtype, item) is None && final(self)@ == (ListView {
                    items: old(self)@.items.push(item),
                    ..old(self)@
                }),
                Err(e) => mismatch(old(self)@.vtype, item) == Some(e@) && final(self)@ == old(
                    self,
                )@,
            },
            old(self)@.is_valid() ==> final(self)@.is_valid(),
    {
        match check_item(lent_text(&self.vtype), &item) {
            Err(e) => Err(e),
            Ok(_) => {
                self.values.push(item);
                Ok(())
            },
        }
    }
}

} // verus!
