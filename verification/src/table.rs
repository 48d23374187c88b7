//! A table: records in order, each shaped by the table's record type.

use vstd::prelude::*;
use std::rc::Rc;
use crate::error::{Error, ErrorView, NameError};
use crate::field::{Field, FieldView};
use crate::tclass::{field_views, TClass, TClassView};
use crate::text::{lent_text, owned_text, string_view, text_view};
use crate::value::{accepts, check_item, mismatch, Value};

verus! {

/// Records in order with an optional comment, bound to a record type that
/// other tables may share. Every record has one cell for each field of the
/// record type, and every cell that holds a value holds one of the kind
/// that its field declares.
#[derive(Debug)]
pub struct Table {
    tclass: Rc<TClass>,
    comment: Option<String>,
    records: Vec<Vec<Option<Value>>>,
}

/// A `Table` over mathematical text and sequences.
pub struct TableView {
    pub tclass: TClassView,
    pub comment: Option<Seq<char>>,
    pub records: Seq<Seq<Option<Value>>>,
}

/// Whether the cell at `i` of a record is not accepted by field `i`.
pub open spec fn cell_is_refused(fields: Seq<FieldView>, record: Seq<Option<Value>>, i: int) -> bool {
    0 <= i < fields.len() && i < record.len() && !accepts(fields[i].vtype, record[i])
}

/// The first cell of a record that its field does not accept, if any.
pub open spec fn first_refused(fields: Seq<FieldView>, record: Seq<Option<Value>>) -> Option<int> {
    if exists|i: int| cell_is_refused(fields, record, i) {
        Some(
            choose|i: int|
                cell_is_refused(fields, record, i) && forall|j: int|
                    0 <= j < i ==> !cell_is_refused(fields, record, j),
        )
    } else {
        None
    }
}

/// Why a record does not fit a record type, or `None` if it fits: the
/// numbers of fields and of cells where they differ, else the mismatch of
/// the first cell that its field does not accept.
pub open spec fn record_error(tclass: TClassView, record: Seq<Option<Value>>) -> Option<ErrorView> {
    if record.len() != tclass.fields.len() {
        Some(ErrorView::ArityMismatch { expected: tclass.fields.len(), actual: record.len() })
    } else {
        match first_refused(tclass.fields, record) {
            Some(i) => mismatch(tclass.fields[i].vtype, record[i]),
            None => None,
        }
    }
}

/// Whether a record fits a record type.
pub open spec fn fits(tclass: TClassView, record: Seq<Option<Value>>) -> bool {
    record_error(tclass, record) is None
}

/// The records of a vector as sequences.
pub open spec fn record_views(records: Seq<Vec<Option<Value>>>) -> Seq<Seq<Option<Value>>> {
    records.map_values(|r: Vec<Option<Value>>| r@)
}

impl TableView {
    /// Whether every record fits the record type.
    pub open spec fn is_valid(self) -> bool {
        forall|r: int| 0 <= r < self.records.len() ==> fits(self.tclass, #[trigger] self.records[r])
    }
}

/// A record that no field refuses a cell of has no first refused cell.
pub proof fn none_refused(fields: Seq<FieldView>, record: Seq<Option<Value>>)
    requires
        forall|i: int| !cell_is_refused(fields, record, i),
    ensures
        first_refused(fields, record) is None,
{
}

/// The first refused cell is the one before which none is refused.
pub proof fn first_refused_is(fields: Seq<FieldView>, record: Seq<Option<Value>>, i: int)
    requires
        cell_is_refused(fields, record, i),
        forall|j: int| 0 <= j < i ==> !cell_is_refused(fields, record, j),
    ensures
        first_refused(fields, record) == Some(i),
{
    let c = choose|c: int|
        cell_is_refused(fields, record, c) && forall|j: int|
            0 <= j < c ==> !cell_is_refused(fields, record, j);
    if c < i {
        assert(!cell_is_refused(fields, record, c));
    }
    if i < c {
        assert(!cell_is_refused(fields, record, i));
    }
}

/// Accepts a record for a record type, or says why it does not fit.
pub fn check_record(tclass: &TClass, record: &Vec<Option<Value>>) -> (res: Result<(), Error>)
    ensures
        match res {
            Ok(_) => record_error(tclass@, record@) is None,
            Err(e) => record_error(tclass@, record@) == Some(e@),
        },
{
    let fields = tclass.fields();
    if record.len() != fields.len() {
        return Err(Error::ArityMismatch { expected: fields.len(), actual: record.len() });
    }
    let mut k: usize = 0;
    while k < record.len()
        invariant
            k <= record@.len(),
            record@.len() == fields@.len(),
            field_views(fields@) == tclass@.fields,
            forall|j: int| 0 <= j < k ==> !cell_is_refused(tclass@.fields, record@, j),
        decreases record@.len() - k,
    {
        assert(tclass@.fields[k as int] == fields@[k as int]@);
        match check_item(fields[k].vtype(), &record[k]) {
            Err(e) => {
                proof {
                    first_refused_is(tclass@.fields, record@, k as int);
                }
                return Err(e);
            },
            Ok(_) => {},
        }
        k += 1;
    }
    proof {
        none_refused(tclass@.fields, record@);
    }
    Ok(())
}

impl View for Table {
    type V = TableView;

    closed spec fn view(&self) -> TableView {
        TableView {
            tclass: (*self.tclass)@,
            comment: string_view(self.comment),
            records: record_views(self.records@),
        }
    }
}

impl Table {
    /// Makes an empty table of the record type, without a comment.
    pub fn new(tclass: TClass) -> (table: Table)
        ensures
            table@ == (TableView { tclass: tclass@, comment: None, records: Seq::empty() }),
            table@.is_valid(),
    {
        Table::new_shared(Rc::new(tclass), None)
    }

    /// Makes an empty table of a record type that other tables may share.
    pub fn new_shared(tclass: Rc<TClass>, comment: Option<&str>) -> (table: Table)
        ensures
            table@ == (TableView {
                tclass: (*tclass)@,
                comment: text_view(comment),
                records: Seq::empty(),
            }),
            table@.is_valid(),
    {
        let records: Vec<Vec<Option<Value>>> = Vec::new();
        assert(record_views(records@) =~= Seq::empty());
        Table { tclass, comment: owned_text(comment), records }
    }

    /// The table's record type.
    pub fn tclass(&self) -> (tclass: &TClass)
        ensures
            tclass@ == self@.tclass,
    {
        &*self.tclass
    }

    /// The table's record type, to share with another table.
    pub fn shared_tclass(&self) -> (tclass: Rc<TClass>)
        ensures
            (*tclass)@ == self@.tclass,
    {
        share(&self.tclass)
    }

    /// The table's comment.
    pub fn comment(&self) -> (comment: Option<&str>)
        ensures
            text_view(comment) == self@.comment,
    {
        lent_text(&self.comment)
    }

    /// How many records the table has.
    pub fn len(&self) -> (len: usize)
        ensures
            len == self@.records.len(),
    {
        self.records.len()
    }

    /// Whether the table has no records.
    pub fn is_empty(&self) -> (empty: bool)
        ensures
            empty == (self@.records.len() == 0),
    {
        self.records.len() == 0
    }

    /// The record at `index`, or `None` where the table ends before it.
    pub fn record(&self, index: usize) -> (record: Option<&Vec<Option<Value>>>)
        ensures
            match record {
                Some(r) => index < self@.records.len() && r@ == self@.records[index as int],
                None => index >= self@.records.len(),
            },
    {
        if index < self.records.len() {
            Some(&self.records[index])
        } else {
            None
        }
    }

    /// Appends the record if it fits the table's record type; else leaves
    /// the table as it is and says why the record does not fit.
    pub fn append(&mut self, record: Vec<Option<Value>>) -> (res: Result<(), Error>)
        ensures
            match res {
                Ok(_) => record_error(old(self)@.tclass, record@) is None && final(self)@ == (
                TableView { records: old(self)@.records.push(record@), ..old(self)@ }),
                Err(e) => record_error(old(self)@.tclass, record@) == Some(e@) && final(self)@
                    == old(self)@,
            },
            old(self)@.is_valid() ==> final(self)@.is_valid(),
    {
        match check_record(&*self.tclass, &record) {
            Err(e) => Err(e),
            Ok(_) => {
                assert(record_views(self.records@.push(record)) =~= record_views(
                    self.records@,
                ).push(record@));
                self.records.push(record);
                Ok(())
            },
        }
    }
}

/// Calls `Rc::clone`. Trusted: the clone points to the same value.
#[verifier::external_body]
fn share(tclass: &Rc<TClass>) -> (shared: Rc<TClass>)
    ensures
        shared == *tclass,
{
    Rc::clone(tclass)
}

/// What the accessors of a field give is what the field was made with.
pub proof fn field_round_trip(
    name: &str,
    vtype: &str,
    made: Field,
    got_name: &str,
    got_vtype: Option<&str>,
)
    requires
        call_ensures(Field::new, (name, vtype), Ok::<Field, NameError>(made)),
        call_ensures(Field::name, (&made,), got_name),
        call_ensures(Field::vtype, (&made,), got_vtype),
    ensures
        got_name@ == name@,
        text_view(got_vtype) == Some(vtype@),
{
}

/// What the accessors of a record type give is what the record type was
/// made with.
pub proof fn tclass_round_trip(
    ttype: &str,
    fields: Vec<Field>,
    comment: Option<&str>,
    made: TClass,
    got_ttype: &str,
    got_fields: &Vec<Field>,
    got_comment: Option<&str>,
    got_len: usize,
)
    requires
        call_ensures(TClass::new, (ttype, fields, comment), Ok::<TClass, NameError>(made)),
        call_ensures(TClass::ttype, (&made,), got_ttype),
        call_ensures(TClass::fields, (&made,), got_fields),
        call_ensures(TClass::comment, (&made,), got_comment),
        call_ensures(TClass::len, (&made,), got_len),
    ensures
        got_ttype@ == ttype@,
        field_views(got_fields@) == field_views(fields@),
        text_view(got_comment) == text_view(comment),
        got_len == fields@.len(),
{
}

/// What the accessors of a new table give is what the table was made
/// with, and no records.
pub proof fn table_round_trip(
    tclass: TClass,
    made: Table,
    got_tclass: &TClass,
    got_comment: Option<&str>,
    got_len: usize,
)
    requires
        call_ensures(Table::new, (tclass,), made),
        call_ensures(Table::tclass, (&made,), got_tclass),
        call_ensures(Table::comment, (&made,), got_comment),
        call_ensures(Table::len, (&made,), got_len),
    ensures
        got_tclass@ == tclass@,
        got_comment is None,
        got_len == 0,
{
}

} // verus!
