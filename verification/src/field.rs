//! A field of a record type: a name, and the type of its values if they
//! are held to one.

use vstd::prelude::*;
use vstd::string::StringExecFns;
use vstd::string::StrSliceExecFns;
use std::cmp::Ordering;
use crate::error::{NameError, NameErrorView};
use crate::order::{
    compare_opt_text, compare_text, opt_text_order, text_lt_is_transitive, text_order,
    text_order_is_total,
};
use crate::text::{lent_text, quote, quoted_text, text_view, to_uppercase, upper_text};
use crate::util::{check_name, check_type_name, is_name, is_type_name, name_error, type_name_error};

verus! {

/// A name with an optional value type. A `Field` never changes: its name
/// is a name and its value type, if any, a type name, from construction on.
#[derive(Debug)]
pub struct Field {
    name: String,
    vtype: Option<String>,
}

/// A `Field` over mathematical text.
pub struct FieldView {
    pub name: Seq<char>,
    pub vtype: Option<Seq<char>>,
}

impl FieldView {
    /// Whether the name is a name and the value type, if any, a type name.
    pub open spec fn is_valid(self) -> bool {
        &&& is_name(self.name)
        &&& self.vtype matches Some(v) ==> is_type_name(v)
    }

    /// How this field stands to another: by the upper-case forms of the
    /// names; where those are equal, by the names; where those are equal, by
    /// the value types, none before any.
    pub open spec fn order(self, other: FieldView) -> Ordering {
        staged_order(upper_text(self.name), self, upper_text(other.name), other)
    }

    /// The field written as the call that makes it.
    pub open spec fn text(self) -> Seq<char> {
        field_text(
            quoted_text(self.name),
            match self.vtype {
                Some(v) => Some(quoted_text(v)),
                None => None,
            },
        )
    }
}

/// How a field stands to another, given the upper-case forms of their
/// names: by those forms; where they are equal, by the names; where those
/// are equal, by the value types, none before any.
pub open spec fn staged_order(
    upper_a: Seq<char>,
    a: FieldView,
    upper_b: Seq<char>,
    b: FieldView,
) -> Ordering {
    if upper_a != upper_b {
        text_order(upper_a, upper_b)
    } else if a.name != b.name {
        text_order(a.name, b.name)
    } else {
        opt_text_order(a.vtype, b.vtype)
    }
}

/// A field written as the call that makes it, given its name and its
/// value type between quotes.
pub open spec fn field_text(quoted_name: Seq<char>, quoted_vtype: Option<Seq<char>>) -> Seq<char> {
    match quoted_vtype {
        Some(v) => "Field::new("@ + quoted_name + ", "@ + v + ")"@,
        None => "Field::new_anyvtype("@ + quoted_name + ")"@,
    }
}

/// Compares two fields, given the upper-case forms of their names.
pub fn compare_staged(upper_a: &str, a: &Field, upper_b: &str, b: &Field) -> (o: Ordering)
    ensures
        o == staged_order(upper_a@, a@, upper_b@, b@),
{
    let by_upper = compare_text(upper_a, upper_b);
    match by_upper {
        Ordering::Equal => {
            let by_name = compare_text(a.name.as_str(), b.name.as_str());
            match by_name {
                Ordering::Equal => compare_opt_text(&a.vtype, &b.vtype),
                _ => by_name,
            }
        },
        _ => by_upper,
    }
}

/// Writes a field as the call that makes it, given its name and its value
/// type between quotes.
pub fn write_field(quoted_name: &str, quoted_vtype: Option<&str>) -> (text: String)
    ensures
        text@ == field_text(quoted_name@, text_view(quoted_vtype)),
{
    match quoted_vtype {
        Some(vtype) => {
            let mut s = String::from_str("Field::new(");
            s.append(quoted_name);
            s.append(", ");
            s.append(vtype);
            s.append(")");
            s
        },
        None => {
            let mut s = String::from_str("Field::new_anyvtype(");
            s.append(quoted_name);
            s.append(")");
            s
        },
    }
}

/// Why no field can have this name and value type, or `None` if one can:
/// what is wrong with the name, else what is wrong with the value type.
pub open spec fn field_error(name: Seq<char>, vtype: Option<Seq<char>>) -> Option<NameErrorView> {
    match name_error(name) {
        Some(e) => Some(e),
        None => match vtype {
            Some(v) => type_name_error(v),
            None => None,
        },
    }
}

impl View for Field {
    type V = FieldView;

    closed spec fn view(&self) -> FieldView {
        FieldView {
            name: self.name@,
            vtype: match self.vtype {
                Some(v) => Some(v@),
                None => None,
            },
        }
    }
}

impl Field {
    #[verifier::type_invariant]
    spec fn inv(&self) -> bool {
        self@.is_valid()
    }

    /// Makes a field whose values are of type `vtype`, or says what is
    /// wrong with the name, else with `vtype`.
    pub fn new(name: &str, vtype: &str) -> (res: Result<Field, NameError>)
        ensures
            match res {
                Ok(f) => field_error(name@, Some(vtype@)) is None && f@ == (FieldView {
                    name: name@,
                    vtype: Some(vtype@),
                }),
                Err(e) => field_error(name@, Some(vtype@)) == Some(e@),
            },
    {
        match check_name(name) {
            Err(e) => Err(e),
            Ok(_) => match check_type_name(vtype) {
                Err(e) => Err(e),
                Ok(_) => Ok(
                    Field { name: String::from_str(name), vtype: Some(String::from_str(vtype)) },
                ),
            },
        }
    }

    /// Makes a field whose values may be of any type, or says what is
    /// wrong with the name.
    pub fn new_anyvtype(name: &str) -> (res: Result<Field, NameError>)
        ensures
            match res {
                Ok(f) => field_error(name@, None) is None && f@ == (FieldView {
                    name: name@,
                    vtype: None,
                }),
                Err(e) => field_error(name@, None) == Some(e@),
            },
    {
        match check_name(name) {
            Err(e) => Err(e),
            Ok(_) => Ok(Field { name: String::from_str(name), vtype: None }),
        }
    }

    /// The field's name.
    pub fn name(&self) -> (name: &str)
        ensures
            name@ == self@.name,
            is_name(name@),
    {
        proof {
            use_type_invariant(self);
        }
        self.name.as_str()
    }

    /// The type of the field's values, or `None` if they may be of any type.
    pub fn vtype(&self) -> (vtype: Option<&str>)
        ensures
            match vtype {
                Some(v) => self@.vtype == Some(v@) && is_type_name(v@),
                None => self@.vtype is None,
            },
    {
        proof {
            use_type_invariant(self);
        }
        match &self.vtype {
            None => None,
            Some(vtype) => Some(vtype.as_str()),
        }
    }

    /// How this field stands to another.
    pub fn cmp(&self, other: &Field) -> (o: Ordering)
        ensures
            o == self@.order(other@),
    {
        let aname = to_uppercase(self.name.as_str());
        let bname = to_uppercase(other.name.as_str());
        compare_staged(aname.as_str(), self, bname.as_str(), other)
    }

    /// The field written as the call that makes it.
    pub fn to_string(&self) -> (text: String)
        ensures
            text@ == self@.text(),
    {
        let name = quote(self.name.as_str());
        let vtype = match &self.vtype {
            Some(vtype) => Some(quote(vtype.as_str())),
            None => None,
        };
        write_field(name.as_str(), lent_text(&vtype))
    }
}

impl Clone for Field {
    fn clone(&self) -> (copy: Field)
        ensures
            copy@ == self@,
    {
        proof {
            use_type_invariant(self);
        }
        Field {
            name: self.name.clone(),
            vtype: match &self.vtype {
                Some(v) => Some(v.clone()),
                None => None,
            },
        }
    }
}

impl PartialEq for Field {
    fn eq(&self, other: &Field) -> (same: bool) {
        if !(self.name == other.name) {
            return false;
        }
        match (&self.vtype, &other.vtype) {
            (None, None) => true,
            (Some(a), Some(b)) => *a == *b,
            _ => false,
        }
    }
}

impl vstd::std_specs::cmp::PartialEqSpecImpl for Field {
    open spec fn obeys_eq_spec() -> bool {
        true
    }

    open spec fn eq_spec(&self, other: &Field) -> bool {
        self@ == other@
    }
}

impl Eq for Field {

}

impl PartialOrd for Field {
    fn partial_cmp(&self, other: &Field) -> (o: Option<Ordering>) {
        Some(self.cmp(other))
    }
}

impl vstd::std_specs::cmp::PartialOrdSpecImpl for Field {
    open spec fn obeys_partial_cmp_spec() -> bool {
        true
    }

    open spec fn partial_cmp_spec(&self, other: &Field) -> Option<Ordering> {
        Some(self@.order(other@))
    }
}

/// The order of fields is total: two fields are equal in order only if
/// they are equal, and one comes before the other exactly if the other
/// comes after it.
pub proof fn field_order_is_total(a: FieldView, b: FieldView)
    ensures
        a.order(b) == Ordering::Equal <==> a == b,
        a.order(b) == Ordering::Less <==> b.order(a) == Ordering::Greater,
        a.order(b) == Ordering::Greater <==> b.order(a) == Ordering::Less,
{
    text_order_is_total(upper_text(a.name), upper_text(b.name));
    text_order_is_total(upper_text(b.name), upper_text(a.name));
    text_order_is_total(a.name, b.name);
    text_order_is_total(b.name, a.name);
    match (a.vtype, b.vtype) {
        (Some(x), Some(y)) => {
            text_order_is_total(x, y);
            text_order_is_total(y, x);
        },
        _ => {},
    }
}

/// The order of fields is transitive.
pub proof fn field_order_is_transitive(a: FieldView, b: FieldView, c: FieldView)
    requires
        a.order(b) == Ordering::Less,
        b.order(c) == Ordering::Less,
    ensures
        a.order(c) == Ordering::Less,
{
    let (ua, ub, uc) = (upper_text(a.name), upper_text(b.name), upper_text(c.name));
    text_order_is_total(ua, ub);
    text_order_is_total(ub, uc);
    text_order_is_total(ua, uc);
    text_order_is_total(a.name, b.name);
    text_order_is_total(b.name, c.name);
    text_order_is_total(a.name, c.name);
    if ua != ub && ub != uc {
        text_lt_is_transitive(ua, ub, uc);
    }
    if ua == ub && ub == uc && a.name != b.name && b.name != c.name {
        text_lt_is_transitive(a.name, b.name, c.name);
    }
    if a.name == b.name && b.name == c.name {
        match (a.vtype, b.vtype, c.vtype) {
            (Some(x), Some(y), Some(z)) => {
                text_order_is_total(x, y);
                text_order_is_total(y, z);
                text_order_is_total(x, z);
                text_lt_is_transitive(x, y, z);
            },
            _ => {},
        }
    }
}

/// The value type that a pair of `make_fields` asks for: none where the
/// second text is empty.
pub open spec fn pair_vtype(vtype: Seq<char>) -> Option<Seq<char>> {
    if vtype.len() == 0 {
        None
    } else {
        Some(vtype)
    }
}

/// The field that a pair of `make_fields` asks for.
pub open spec fn pair_field(pair: (&str, &str)) -> FieldView {
    FieldView { name: pair.0@, vtype: pair_vtype(pair.1@) }
}

/// Why a pair of `make_fields` gives no field, or `None` if it gives one.
pub open spec fn pair_error(pair: (&str, &str)) -> Option<NameErrorView> {
    field_error(pair.0@, pair_vtype(pair.1@))
}

/// Makes one field from each pair of a name and a value type, in order; an
/// empty value type asks for a field of any type. Where a pair gives no
/// field, the first such pair's error is returned.
pub fn make_fields(name_vtype_pairs: &[(&str, &str)]) -> (res: Result<Vec<Field>, NameError>)
    ensures
        match res {
            Ok(fields) => {
                &&& fields@.len() == name_vtype_pairs@.len()
                &&& forall|i: int|
                    0 <= i < fields@.len() ==> (#[trigger] pair_error(name_vtype_pairs@[i])) is None
                &&& forall|i: int|
                    0 <= i < fields@.len() ==> (#[trigger] fields@[i])@ == pair_field(
                        name_vtype_pairs@[i],
                    )
            },
            Err(e) => exists|k: int|
                {
                    &&& 0 <= k < name_vtype_pairs@.len()
                    &&& #[trigger] pair_error(name_vtype_pairs@[k]) == Some(e@)
                    &&& forall|j: int|
                        0 <= j < k ==> (#[trigger] pair_error(name_vtype_pairs@[j])) is None
                },
        },
{
    let mut fields: Vec<Field> = Vec::new();
    let mut k: usize = 0;
    while k < name_vtype_pairs.len()
        invariant
            k <= name_vtype_pairs@.len(),
            fields@.len() == k,
            forall|i: int| 0 <= i < k ==> (#[trigger] pair_error(name_vtype_pairs@[i])) is None,
            forall|i: int|
                0 <= i < k ==> (#[trigger] fields@[i])@ == pair_field(name_vtype_pairs@[i]),
        decreases name_vtype_pairs@.len() - k,
    {
        let (name, vtype) = name_vtype_pairs[k];
        let made = if vtype.unicode_len() == 0 {
            Field::new_anyvtype(name)
        } else {
            Field::new(name, vtype)
        };
        match made {
            Err(e) => {
                assert(pair_error(name_vtype_pairs@[k as int]) == Some(e@));
                return Err(e);
            },
            Ok(field) => {
                fields.push(field);
            },
        }
        k += 1;
    }
    Ok(fields)
}

} // verus!
