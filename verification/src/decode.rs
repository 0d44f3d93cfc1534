//! Field-by-field decoding of loosely-typed documents.
//!
//! Reading one field of a document has three outcomes, kept apart by
//! [`Field`]: the field is absent (no such key, or a null under it), it is
//! present with a value of the expected shape, or it is malformed. A lenient
//! reader turns a malformed field into `None`; a strict reader rejects the
//! whole record.

use crate::document::{
    array_of, integer_of, lookup, number_of, text_of, Document, DocumentView, Number, Value,
    ValueView,
};
use crate::time::{epoch_or_zero, lenient_epoch, utc_representable};
use vstd::prelude::*;

verus! {

/// The outcome of reading one field of a document.
#[derive(Debug, PartialEq)]
pub enum Field<T> {
    /// No such key, or a null under it.
    Absent,
    /// A value of the expected shape.
    Present(T),
    /// A value of another shape.
    Malformed,
}

impl<T: DeepView> DeepView for Field<T> {
    type V = Field<T::V>;

    open spec fn deep_view(&self) -> Field<T::V> {
        match self {
            Field::Absent => Field::Absent,
            Field::Present(x) => Field::Present(x.deep_view()),
            Field::Malformed => Field::Malformed,
        }
    }
}

impl<T> Field<T> {
    /// The value of a present field; `None` for an absent or malformed one.
    pub open spec fn value(self) -> Option<T> {
        match self {
            Field::Present(x) => Some(x),
            _ => None,
        }
    }

    /// The lenient reading: a malformed field counts as absent.
    pub fn lenient(self) -> (r: Option<T>)
        ensures
            r == self.value(),
    {
        match self {
            Field::Present(x) => Some(x),
            _ => None,
        }
    }

    /// Whether the field has another shape than expected.
    pub fn is_malformed(&self) -> (b: bool)
        ensures
            b == (*self is Malformed),
    {
        match self {
            Field::Malformed => true,
            _ => false,
        }
    }
}

/// Reads the field `key` of `d` with the reader `read`, which yields `None`
/// for a value of the wrong shape.
pub open spec fn field_of<T>(
    d: DocumentView,
    key: Seq<char>,
    read: spec_fn(ValueView) -> Option<T>,
) -> Field<T> {
    match lookup(d, key) {
        None => Field::Absent,
        Some(ValueView::Null) => Field::Absent,
        Some(v) => match read(v) {
            Some(x) => Field::Present(x),
            None => Field::Malformed,
        },
    }
}

/// Reads every item of an array with `read`. One item of the wrong shape
/// fails the whole array; so does a value that is no array.
pub open spec fn series_of<T>(v: ValueView, read: spec_fn(ValueView) -> Option<T>) -> Option<
    Seq<T>,
> {
    match v {
        ValueView::Array(items) => {
            if forall|i: int| 0 <= i < items.len() ==> read(#[trigger] items[i]) is Some {
                Some(Seq::new(items.len(), |i: int| read(items[i]).unwrap()))
            } else {
                None
            }
        },
        _ => None,
    }
}

/// The numbers of an array of numbers.
pub open spec fn numbers_of(v: ValueView) -> Option<Seq<Number>> {
    series_of(v, |x: ValueView| number_of(x))
}

/// The integers of an array of integers.
pub open spec fn integers_of(v: ValueView) -> Option<Seq<i64>> {
    series_of(v, |x: ValueView| integer_of(x))
}

/// The instants of an array of integer epoch seconds, each after the lenient
/// fallback to the Unix epoch.
pub open spec fn instants_of(v: ValueView) -> Option<Seq<i64>> {
    match integers_of(v) {
        Some(secs) => Some(Seq::new(secs.len(), |i: int| lenient_epoch(secs[i]))),
        None => None,
    }
}

/// Reads a text field.
pub fn text_field(d: &Document, key: &str) -> (f: Field<String>)
    ensures
        f.deep_view() == field_of(d@, key@, |v: ValueView| text_of(v)),
{
    match d.get(key) {
        None => Field::Absent,
        Some(Value::Null) => Field::Absent,
        Some(v) => match v.as_text() {
            Some(s) => Field::Present(s.clone()),
            None => Field::Malformed,
        },
    }
}

/// Reads a numeric field.
pub fn number_field(d: &Document, key: &str) -> (f: Field<Number>)
    ensures
        f == field_of(d@, key@, |v: ValueView| number_of(v)),
{
    match d.get(key) {
        None => Field::Absent,
        Some(Value::Null) => Field::Absent,
        Some(v) => match v.as_number() {
            Some(n) => Field::Present(n),
            None => Field::Malformed,
        },
    }
}

/// Reads an integer field.
pub fn integer_field(d: &Document, key: &str) -> (f: Field<i64>)
    ensures
        f == field_of(d@, key@, |v: ValueView| integer_of(v)),
{
    match d.get(key) {
        None => Field::Absent,
        Some(Value::Null) => Field::Absent,
        Some(v) => match v.as_integer() {
            Some(n) => Field::Present(n),
            None => Field::Malformed,
        },
    }
}

/// Reads every item of an array as a number.
pub fn read_numbers(v: &Value) -> (r: Option<Vec<Number>>)
    ensures
        r.deep_view() == numbers_of(v@),
{
    let items = match v.as_array() {
        Some(items) => items,
        None => { return None; },
    };
    let ghost views = array_of(v@).unwrap();
    let mut out: Vec<Number> = Vec::new();
    let mut i: usize = 0;
    while i < items.len()
        invariant
            i <= items.len(),
            array_of(v@) == Some(views),
            views == items.deep_view(),
            out@.len() == i,
            forall|j: int| 0 <= j < i ==> number_of(#[trigger] views[j]) == Some(out@[j]),
        decreases items.len() - i,
    {
        match items[i].as_number() {
            Some(n) => out.push(n),
            None => {
                assert(number_of(views[i as int]) is None);
                return None;
            },
        }
        i = i + 1;
    }
    assert(out.deep_view() =~= numbers_of(v@).unwrap());
    Some(out)
}

/// Reads every item of an array as an integer.
pub fn read_integers(v: &Value) -> (r: Option<Vec<i64>>)
    ensures
        r.deep_view() == integers_of(v@),
{
    let items = match v.as_array() {
        Some(items) => items,
        None => { return None; },
    };
    let ghost views = array_of(v@).unwrap();
    let mut out: Vec<i64> = Vec::new();
    let mut i: usize = 0;
    while i < items.len()
        invariant
            i <= items.len(),
            array_of(v@) == Some(views),
            views == items.deep_view(),
            out@.len() == i,
            forall|j: int| 0 <= j < i ==> integer_of(#[trigger] views[j]) == Some(out@[j]),
        decreases items.len() - i,
    {
        match items[i].as_integer() {
            Some(n) => out.push(n),
            None => {
                assert(integer_of(views[i as int]) is None);
                return None;
            },
        }
        i = i + 1;
    }
    assert(out.deep_view() =~= integers_of(v@).unwrap());
    Some(out)
}

/// Reads every item of an array as an instant in whole seconds since the Unix
/// epoch. An instant that cannot be represented becomes the epoch itself.
pub fn read_instants(v: &Value) -> (r: Option<Vec<i64>>)
    ensures
        r.deep_view() == instants_of(v@),
        r matches Some(out) ==> forall|j: int|
            0 <= j < out@.len() ==> utc_representable(#[trigger] out@[j] as int),
{
    let mut out = match read_integers(v) {
        Some(secs) => secs,
        None => { return None; },
    };
    let ghost secs = out@;
    assert(secs =~= integers_of(v@).unwrap());
    let mut i: usize = 0;
    while i < out.len()
        invariant
            i <= out.len(),
            out@.len() == secs.len(),
            forall|j: int| 0 <= j < i ==> #[trigger] out@[j] == lenient_epoch(secs[j]),
            forall|j: int| 0 <= j < i ==> utc_representable(#[trigger] out@[j] as int),
            forall|j: int| i <= j < out@.len() ==> #[trigger] out@[j] == secs[j],
        decreases out.len() - i,
    {
        let instant = epoch_or_zero(out[i]);
        out.set(i, instant);
        i = i + 1;
    }
    assert(out.deep_view() =~= instants_of(v@).unwrap());
    Some(out)
}

/// Reads a field that holds an array of numbers.
pub fn numbers_field(d: &Document, key: &str) -> (f: Field<Vec<Number>>)
    ensures
        f.deep_view() == field_of(d@, key@, |v: ValueView| numbers_of(v)),
{
    match d.get(key) {
        None => Field::Absent,
        Some(Value::Null) => Field::Absent,
        Some(v) => match read_numbers(v) {
            Some(s) => Field::Present(s),
            None => Field::Malformed,
        },
    }
}

/// Reads a field that holds an array of integers.
pub fn integers_field(d: &Document, key: &str) -> (f: Field<Vec<i64>>)
    ensures
        f.deep_view() == field_of(d@, key@, |v: ValueView| integers_of(v)),
{
    match d.get(key) {
        None => Field::Absent,
        Some(Value::Null) => Field::Absent,
        Some(v) => match read_integers(v) {
            Some(s) => Field::Present(s),
            None => Field::Malformed,
        },
    }
}

/// Reads a field that holds an array of epoch seconds.
pub fn instants_field(d: &Document, key: &str) -> (f: Field<Vec<i64>>)
    ensures
        f.deep_view() == field_of(d@, key@, |v: ValueView| instants_of(v)),
        f matches Field::Present(out) ==> forall|j: int|
            0 <= j < out@.len() ==> utc_representable(#[trigger] out@[j] as int),
{
    match d.get(key) {
        None => Field::Absent,
        Some(Value::Null) => Field::Absent,
        Some(v) => match read_instants(v) {
            Some(s) => Field::Present(s),
            None => Field::Malformed,
        },
    }
}

} // verus!
