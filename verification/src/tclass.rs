//! A record type: a name, the fields of its records in order, and a
//! comment. One without fields serves as a tag.

use vstd::prelude::*;
use vstd::string::StringExecFns;
use std::cmp::Ordering;
use crate::error::{Error, ErrorView, NameError};
use crate::field::{field_order_is_total, Field, FieldView};
use crate::order::{
    compare_opt_text, compare_text, opt_text_order, text_order, text_order_is_total,
};
use crate::text::{
    lent_text, owned_text, quote, quoted_text, string_view, text_view, to_uppercase, upper_text,
};
use crate::util::{check_name, is_name, name_error};
use crate::value::Value;

verus! {

/// A named, ordered list of fields with an optional comment. A `TClass`
/// never changes, and its name is a name from construction on.
#[derive(Debug)]
pub struct TClass {
    ttype: String,
    fields: Vec<Field>,
    comment: Option<String>,
}

/// A `TClass` over mathematical text and sequences.
pub struct TClassView {
    pub ttype: Seq<char>,
    pub fields: Seq<FieldView>,
    pub comment: Option<Seq<char>>,
}

/// How one sequence of fields stands to another: by the first pair of
/// fields that are not equal in order, a sequence before its extensions.
pub open spec fn fields_order(a: Seq<FieldView>, b: Seq<FieldView>) -> Ordering
    decreases a.len(),
{
    if a.len() == 0 {
        if b.len() == 0 {
            Ordering::Equal
        } else {
            Ordering::Less
        }
    } else if b.len() == 0 {
        Ordering::Greater
    } else {
        match a[0].order(b[0]) {
            Ordering::Equal => fields_order(a.drop_first(), b.drop_first()),
            o => o,
        }
    }
}

/// Texts one after another, with `, ` between them.
pub open spec fn joined(texts: Seq<Seq<char>>) -> Seq<char>
    decreases texts.len(),
{
    if texts.len() == 0 {
        Seq::empty()
    } else if texts.len() == 1 {
        texts[0]
    } else {
        joined(texts.drop_last()) + ", "@ + texts.last()
    }
}

/// An optional text written as Rust writes an `Option`, given the text
/// between quotes.
pub open spec fn comment_text(quoted_comment: Option<Seq<char>>) -> Seq<char> {
    match quoted_comment {
        Some(c) => "Some("@ + c + ")"@,
        None => "None"@,
    }
}

/// A record type written as the call that makes it, given its name and
/// comment between quotes and the texts of its fields.
pub open spec fn tclass_text(
    quoted_ttype: Seq<char>,
    field_texts: Seq<Seq<char>>,
    quoted_comment: Option<Seq<char>>,
) -> Seq<char> {
    if field_texts.len() == 0 {
        "TClass::new_fieldless("@ + quoted_ttype + ", "@ + comment_text(quoted_comment) + ")"@
    } else {
        "TClass::new("@ + quoted_ttype + ", vec!["@ + joined(field_texts) + "], "@ + comment_text(
            quoted_comment,
        ) + ")"@
    }
}

/// How a record type stands to another, given the upper-case forms of
/// their names: by those forms; where they are equal, by the names; where
/// those are equal, by the fields; where those are equal, by the comments,
/// none before any.
pub open spec fn staged_order(
    upper_a: Seq<char>,
    a: TClassView,
    upper_b: Seq<char>,
    b: TClassView,
) -> Ordering {
    if upper_a != upper_b {
        text_order(upper_a, upper_b)
    } else if a.ttype != b.ttype {
        text_order(a.ttype, b.ttype)
    } else {
        match fields_order(a.fields, b.fields) {
            Ordering::Equal => opt_text_order(a.comment, b.comment),
            o => o,
        }
    }
}

impl TClassView {
    /// Whether the record type has no fields.
    pub open spec fn is_fieldless(self) -> bool {
        self.fields.len() == 0
    }

    /// How this record type stands to another: by the upper-case forms of
    /// the names; where those are equal, by the names; where those are
    /// equal, by the fields; where those are equal, by the comments, none
    /// before any.
    pub open spec fn order(self, other: TClassView) -> Ordering {
        staged_order(upper_text(self.ttype), self, upper_text(other.ttype), other)
    }

    /// The record type written as the call that makes it.
    pub open spec fn text(self) -> Seq<char> {
        tclass_text(
            quoted_text(self.ttype),
            self.fields.map_values(|f: FieldView| f.text()),
            match self.comment {
                Some(c) => Some(quoted_text(c)),
                None => None,
            },
        )
    }
}

/// The views of the strings of a vector.
pub open spec fn string_views(texts: Seq<String>) -> Seq<Seq<char>> {
    texts.map_values(|t: String| t@)
}

/// The views of the fields of a vector.
pub open spec fn field_views(fields: Seq<Field>) -> Seq<FieldView> {
    fields.map_values(|f: Field| f@)
}

impl View for TClass {
    type V = TClassView;

    closed spec fn view(&self) -> TClassView {
        TClassView {
            ttype: self.ttype@,
            fields: field_views(self.fields@),
            comment: string_view(self.comment),
        }
    }
}

impl TClass {
    #[verifier::type_invariant]
    spec fn inv(&self) -> bool {
        is_name(self.ttype@)
    }

    /// Makes a record type of the given name, fields and comment, or says
    /// what is wrong with the name.
    pub fn new(ttype: &str, fields: Vec<Field>, comment: Option<&str>) -> (res: Result<
        TClass,
        NameError,
    >)
        ensures
            match res {
                Ok(t) => name_error(ttype@) is None && t@ == (TClassView {
                    ttype: ttype@,
                    fields: field_views(fields@),
                    comment: text_view(comment),
                }),
                Err(e) => name_error(ttype@) == Some(e@),
            },
    {
        match check_name(ttype) {
            Err(e) => Err(e),
            Ok(_) => Ok(TClass { ttype: String::from_str(ttype), fields, comment: owned_text(comment) }),
        }
    }

    /// Makes a record type of the given name and comment without fields, or
    /// says what is wrong with the name.
    pub fn new_fieldless(ttype: &str, comment: Option<&str>) -> (res: Result<TClass, NameError>)
        ensures
            match res {
                Ok(t) => name_error(ttype@) is None && t@ == (TClassView {
                    ttype: ttype@,
                    fields: Seq::empty(),
                    comment: text_view(comment),
                }),
                Err(e) => name_error(ttype@) == Some(e@),
            },
    {
        match check_name(ttype) {
            Err(e) => Err(e),
            Ok(_) => {
                let fields: Vec<Field> = Vec::new();
                assert(field_views(fields@) =~= Seq::empty());
                Ok(TClass { ttype: String::from_str(ttype), fields, comment: owned_text(comment) })
            },
        }
    }

    /// Whether the record type has no fields.
    pub fn is_fieldless(&self) -> (fieldless: bool)
        ensures
            fieldless == self@.is_fieldless(),
    {
        self.fields.len() == 0
    }

    /// The record type's name.
    pub fn ttype(&self) -> (ttype: &str)
        ensures
            ttype@ == self@.ttype,
            is_name(ttype@),
    {
        proof {
            use_type_invariant(self);
        }
        self.ttype.as_str()
    }

    /// The record type's comment.
    pub fn comment(&self) -> (comment: Option<&str>)
        ensures
            text_view(comment) == self@.comment,
    {
        lent_text(&self.comment)
    }

    /// How many fields the record type has; 0 for one without fields.
    pub fn len(&self) -> (len: usize)
        ensures
            len == self@.fields.len(),
    {
        self.fields.len()
    }

    /// The fields, in order.
    pub fn fields(&self) -> (fields: &Vec<Field>)
        ensures
            field_views(fields@) == self@.fields,
    {
        &self.fields
    }

    /// A record for a table of this record type in which every cell is
    /// absent: one cell for each field. A record type without fields has no
    /// such record.
    pub fn record_of_nulls(&self) -> (res: Result<Vec<Option<Value>>, Error>)
        ensures
            match res {
                Ok(record) => {
                    &&& !self@.is_fieldless()
                    &&& record@.len() == self@.fields.len()
                    &&& forall|i: int| 0 <= i < record@.len() ==> record@[i] is None
                },
                Err(e) => self@.is_fieldless() && e@ == ErrorView::FieldlessRecord,
            },
    {
        if self.is_fieldless() {
            return Err(Error::FieldlessRecord);
        }
        let mut record: Vec<Option<Value>> = Vec::new();
        let mut k: usize = 0;
        while k < self.fields.len()
            invariant
                k <= self.fields@.len(),
                record@.len() == k,
                forall|i: int| 0 <= i < record@.len() ==> record@[i] is None,
            decreases self.fields@.len() - k,
        {
            record.push(None);
            k += 1;
        }
        Ok(record)
    }

    /// How this record type stands to another.
    pub fn cmp(&self, other: &TClass) -> (o: Ordering)
        ensures
            o == self@.order(other@),
    {
        let aname = to_uppercase(self.ttype.as_str());
        let bname = to_uppercase(other.ttype.as_str());
        compare_staged(aname.as_str(), self, bname.as_str(), other)
    }

    /// The record type written as the call that makes it.
    pub fn to_string(&self) -> (text: String)
        ensures
            text@ == self@.text(),
    {
        let ttype = quote(self.ttype.as_str());
        let ghost wanted = self@.fields.map_values(|f: FieldView| f.text());
        let mut texts: Vec<String> = Vec::new();
        let mut k: usize = 0;
        while k < self.fields.len()
            invariant
                k <= self.fields@.len(),
                texts@.len() == k,
                wanted == self@.fields.map_values(|f: FieldView| f.text()),
                forall|j: int| 0 <= j < k ==> (#[trigger] texts@[j])@ == wanted[j],
            decreases self.fields@.len() - k,
        {
            assert(wanted[k as int] == self.fields@[k as int]@.text());
            texts.push(self.fields[k].to_string());
            k += 1;
        }
        assert(string_views(texts@) =~= wanted);
        let comment = match &self.comment {
            Some(comment) => Some(quote(comment.as_str())),
            None => None,
        };
        write_tclass(ttype.as_str(), &texts, lent_text(&comment))
    }
}

/// Compares two record types, given the upper-case forms of their names.
pub fn compare_staged(upper_a: &str, a: &TClass, upper_b: &str, b: &TClass) -> (o: Ordering)
    ensures
        o == staged_order(upper_a@, a@, upper_b@, b@),
{
    let by_upper = compare_text(upper_a, upper_b);
    match by_upper {
        Ordering::Equal => {},
        _ => {
            return by_upper;
        },
    }
    let by_name = compare_text(a.ttype.as_str(), b.ttype.as_str());
    match by_name {
        Ordering::Equal => {},
        _ => {
            return by_name;
        },
    }
    let by_fields = compare_fields(&a.fields, &b.fields);
    match by_fields {
        Ordering::Equal => compare_opt_text(&a.comment, &b.comment),
        _ => by_fields,
    }
}

/// Writes a record type as the call that makes it, given its name and
/// comment between quotes and the texts of its fields.
pub fn write_tclass(quoted_ttype: &str, field_texts: &Vec<String>, quoted_comment: Option<&str>) -> (text:
    String)
    ensures
        text@ == tclass_text(quoted_ttype@, string_views(field_texts@), text_view(quoted_comment)),
{
    let mut s = String::from_str("TClass::");
    if field_texts.len() == 0 {
        s.append("new_fieldless(");
        s.append(quoted_ttype);
        s.append(", ");
    } else {
        s.append("new(");
        s.append(quoted_ttype);
        s.append(", vec![");
        push_joined(&mut s, field_texts);
        s.append("], ");
    }
    match quoted_comment {
        Some(comment) => {
            s.append("Some(");
            s.append(comment);
            s.append(")");
        },
        None => {
            s.append("None");
        },
    }
    s.append(")");
    proof {
        reveal_strlit("TClass::");
        reveal_strlit("new_fieldless(");
        reveal_strlit("new(");
        reveal_strlit("TClass::new_fieldless(");
        reveal_strlit("TClass::new(");
        assert("TClass::"@ + "new_fieldless("@ =~= "TClass::new_fieldless("@);
        assert("TClass::"@ + "new("@ =~= "TClass::new("@);
        assert(s@ =~= tclass_text(
            quoted_ttype@,
            string_views(field_texts@),
            text_view(quoted_comment),
        ));
    }
    s
}

/// The order of sequences of fields is total.
pub proof fn fields_order_is_total(a: Seq<FieldView>, b: Seq<FieldView>)
    ensures
        fields_order(a, b) == Ordering::Equal <==> a == b,
        fields_order(a, b) == Ordering::Less <==> fields_order(b, a) == Ordering::Greater,
        fields_order(a, b) == Ordering::Greater <==> fields_order(b, a) == Ordering::Less,
    decreases a.len(),
{
    if a.len() > 0 && b.len() > 0 {
        field_order_is_total(a[0], b[0]);
        fields_order_is_total(a.drop_first(), b.drop_first());
        if a[0] == b[0] && a.drop_first() == b.drop_first() {
            assert(a =~= seq![a[0]] + a.drop_first());
            assert(b =~= seq![b[0]] + b.drop_first());
        }
    } else if a.len() == 0 && b.len() == 0 {
        assert(a =~= b);
    }
}

/// The order of record types is total: two record types are equal in
/// order only if they are equal, and one comes before the other exactly
/// if the other comes after it.
pub proof fn tclass_order_is_total(a: TClassView, b: TClassView)
    ensures
        a.order(b) == Ordering::Equal <==> a == b,
        a.order(b) == Ordering::Less <==> b.order(a) == Ordering::Greater,
        a.order(b) == Ordering::Greater <==> b.order(a) == Ordering::Less,
{
    text_order_is_total(upper_text(a.ttype), upper_text(b.ttype));
    text_order_is_total(upper_text(b.ttype), upper_text(a.ttype));
    text_order_is_total(a.ttype, b.ttype);
    text_order_is_total(b.ttype, a.ttype);
    fields_order_is_total(a.fields, b.fields);
    fields_order_is_total(b.fields, a.fields);
    match (a.comment, b.comment) {
        (Some(x), Some(y)) => {
            text_order_is_total(x, y);
            text_order_is_total(y, x);
        },
        _ => {},
    }
}

/// Compares two vectors of fields.
fn compare_fields(a: &Vec<Field>, b: &Vec<Field>) -> (o: Ordering)
    ensures
        o == fields_order(field_views(a@), field_views(b@)),
{
    let ghost va = field_views(a@);
    let ghost vb = field_views(b@);
    let ghost mut i: int = 0;
    let mut k: usize = 0;
    proof {
        assert(va.skip(0) =~= va);
        assert(vb.skip(0) =~= vb);
    }
    loop
        invariant
            i == k,
            0 <= i <= a@.len(),
            i <= b@.len(),
            va == field_views(a@),
            vb == field_views(b@),
            fields_order(va, vb) == fields_order(va.skip(i), vb.skip(i)),
        decreases a@.len() - i,
    {
        proof {
            assert(va.skip(i).len() == a@.len() - i);
            assert(vb.skip(i).len() == b@.len() - i);
        }
        if k == a.len() {
            return if k == b.len() {
                Ordering::Equal
            } else {
                Ordering::Less
            };
        }
        if k == b.len() {
            return Ordering::Greater;
        }
        let o = a[k].cmp(&b[k]);
        proof {
            assert(va.skip(i)[0] == a@[i]@);
            assert(vb.skip(i)[0] == b@[i]@);
            assert(va.skip(i).drop_first() =~= va.skip(i + 1));
            assert(vb.skip(i).drop_first() =~= vb.skip(i + 1));
        }
        match o {
            Ordering::Equal => {},
            _ => {
                return o;
            },
        }
        k += 1;
        proof {
            i = i + 1;
        }
    }
}

/// Appends the texts to `out`, with `, ` between them.
fn push_joined(out: &mut String, texts: &Vec<String>)
    ensures
        final(out)@ == old(out)@ + joined(string_views(texts@)),
{
    let ghost views = string_views(texts@);
    let mut k: usize = 0;
    assert(old(out)@ + joined(views.take(0)) =~= old(out)@);
    while k < texts.len()
        invariant
            k <= texts@.len(),
            views == string_views(texts@),
            out@ == old(out)@ + joined(views.take(k as int)),
        decreases texts@.len() - k,
    {
        if k > 0 {
            out.append(", ");
        }
        out.append(texts[k].as_str());
        proof {
            let next = views.take(k + 1);
            assert(next.drop_last() =~= views.take(k as int));
            assert(next.last() == texts@[k as int]@);
            if k == 0 {
                assert(joined(views.take(0)) =~= Seq::<char>::empty());
            }
            assert(out@ =~= old(out)@ + joined(next));
        }
        k += 1;
    }
    assert(views.take(k as int) =~= views);
}

/// Whether two vectors hold equal fields in the same order.
fn same_fields(a: &Vec<Field>, b: &Vec<Field>) -> (same: bool)
    ensures
        same == (field_views(a@) == field_views(b@)),
{
    if a.len() != b.len() {
        assert(field_views(a@).len() != field_views(b@).len());
        return false;
    }
    let mut k: usize = 0;
    while k < a.len()
        invariant
            k <= a@.len(),
            a@.len() == b@.len(),
            forall|j: int| 0 <= j < k ==> a@[j]@ == b@[j]@,
        decreases a@.len() - k,
    {
        if !(a[k] == b[k]) {
            assert(field_views(a@)[k as int] != field_views(b@)[k as int]);
            return false;
        }
        k += 1;
    }
    assert(field_views(a@) =~= field_views(b@));
    true
}

/// Copies of the fields of a vector, in order.
fn copy_fields(fields: &Vec<Field>) -> (copy: Vec<Field>)
    ensures
        field_views(copy@) == field_views(fields@),
{
    let mut copy: Vec<Field> = Vec::new();
    let mut k: usize = 0;
    while k < fields.len()
        invariant
            k <= fields@.len(),
            copy@.len() == k,
            forall|j: int| 0 <= j < k ==> copy@[j]@ == fields@[j]@,
        decreases fields@.len() - k,
    {
        copy.push(fields[k].clone());
        k += 1;
    }
    assert(field_views(copy@) =~= field_views(fields@));
    copy
}

impl Clone for TClass {
    fn clone(&self) -> (copy: TClass)
        ensures
            copy@ == self@,
    {
        proof {
            use_type_invariant(self);
        }
        TClass {
            ttype: self.ttype.clone(),
            fields: copy_fields(&self.fields),
            comment: match &self.comment {
                Some(c) => Some(c.clone()),
                None => None,
            },
        }
    }
}

impl PartialEq for TClass {
    fn eq(&self, other: &TClass) -> (same: bool) {
        if !(self.ttype == other.ttype) {
            return false;
        }
        if !same_fields(&self.fields, &other.fields) {
            return false;
        }
        match (&self.comment, &other.comment) {
            (None, None) => true,
            (Some(a), Some(b)) => *a == *b,
            _ => false,
        }
    }
}

impl vstd::std_specs::cmp::PartialEqSpecImpl for TClass {
    open spec fn obeys_eq_spec() -> bool {
        true
    }

    open spec fn eq_spec(&self, other: &TClass) -> bool {
        self@ == other@
    }
}

impl PartialOrd for TClass {
    fn partial_cmp(&self, other: &TClass) -> (o: Option<Ordering>) {
        Some(self.cmp(other))
    }
}

impl vstd::std_specs::cmp::PartialOrdSpecImpl for TClass {
    open spec fn obeys_partial_cmp_spec() -> bool {
        true
    }

    open spec fn partial_cmp_spec(&self, other: &TClass) -> Option<Ordering> {
        Some(self@.order(other@))
    }
}

} // verus!
