//! Loosely-typed documents as the store hands them out.
//!
//! A [`Document`] maps string keys to dynamically-typed [`Value`]s. Every
//! contract in this crate speaks of a document through its view, a
//! `Map<Seq<char>, ValueView>`, so that the rules of decoding are stated over
//! plain mathematical maps and sequences.
//!
//! These types model the data only. The library takes no document from a
//! store itself: whoever owns the store connection turns the store's
//! documents into these, value for value, and the filters built here back
//! into the store's.

use vstd::prelude::*;

verus! {

/// A double-precision number by its IEEE-754 bit pattern. The library never
/// does arithmetic on such a number; it carries the bits through unchanged.
pub type FloatBits = u64;

/// A number as a document stores it: a double or an integer.
#[derive(Clone, Copy, Debug, PartialEq, Eq)]
pub enum Number {
    Float(FloatBits),
    Int(i64),
}

impl View for Number {
    type V = Number;

    open spec fn view(&self) -> Number {
        *self
    }
}

impl DeepView for Number {
    type V = Number;

    open spec fn deep_view(&self) -> Number {
        *self
    }
}

/// A dynamically-typed value of a document.
#[derive(Debug, PartialEq)]
pub enum Value {
    Null,
    Bool(bool),
    Int32(i32),
    Int64(i64),
    Double(FloatBits),
    Text(String),
    Array(Vec<Value>),
    Document(Document),
    /// Any value of a type that no schema of this crate reads.
    Other,
}

/// An ordered list of key/value entries. Where a key occurs more than once,
/// the last entry is the one that counts.
#[derive(Debug, PartialEq)]
pub struct Document {
    pub entries: Vec<(String, Value)>,
}

/// The mathematical value of a [`Value`].
pub enum ValueView {
    Null,
    Bool(bool),
    Int32(i32),
    Int64(i64),
    Double(FloatBits),
    Text(Seq<char>),
    Array(Seq<ValueView>),
    Document(Map<Seq<char>, ValueView>),
    Other,
}

/// The mathematical value of a [`Document`].
pub type DocumentView = Map<Seq<char>, ValueView>;

/// What a value stands for: the same value, with texts as sequences of
/// characters, arrays as sequences and documents as maps.
pub open spec fn value_view(v: Value) -> ValueView
    decreases v, 0nat,
{
    match v {
        Value::Null => ValueView::Null,
        Value::Bool(b) => ValueView::Bool(b),
        Value::Int32(i) => ValueView::Int32(i),
        Value::Int64(i) => ValueView::Int64(i),
        Value::Double(bits) => ValueView::Double(bits),
        Value::Text(s) => ValueView::Text(s@),
        Value::Array(items) => ValueView::Array(items_view(items@, items@.len())),
        Value::Document(d) => ValueView::Document(entries_view(d.entries@, d.entries@.len())),
        Value::Other => ValueView::Other,
    }
}

/// The views of the first `n` items, in order.
pub open spec fn items_view(items: Seq<Value>, n: nat) -> Seq<ValueView>
    decreases items, n,
{
    if n == 0 || n > items.len() {
        Seq::empty()
    } else {
        items_view(items, (n - 1) as nat).push(value_view(items[n - 1]))
    }
}

/// The map that the first `n` entries describe: a later entry overrides an
/// earlier one with the same key.
pub open spec fn entries_view(entries: Seq<(String, Value)>, n: nat) -> DocumentView
    decreases entries, n,
{
    if n == 0 || n > entries.len() {
        Map::empty()
    } else {
        entries_view(entries, (n - 1) as nat).insert(
            entries[n - 1].0@,
            value_view(entries[n - 1].1),
        )
    }
}

impl View for Value {
    type V = ValueView;

    open spec fn view(&self) -> ValueView {
        value_view(*self)
    }
}

impl DeepView for Value {
    type V = ValueView;

    open spec fn deep_view(&self) -> ValueView {
        self@
    }
}

impl View for Document {
    type V = DocumentView;

    open spec fn view(&self) -> DocumentView {
        entries_view(self.entries@, self.entries@.len())
    }
}

impl DeepView for Document {
    type V = DocumentView;

    open spec fn deep_view(&self) -> DocumentView {
        self@
    }
}

/// The views of all items of an array.
pub open spec fn array_view(items: Seq<Value>) -> Seq<ValueView> {
    items_view(items, items.len())
}

/// The view of the first `n` items has `n` items and holds each item's view
/// in place.
pub proof fn lemma_items_view(items: Seq<Value>, n: nat)
    requires
        n <= items.len(),
    ensures
        items_view(items, n).len() == n,
        forall|i: int| 0 <= i < n ==> #[trigger] items_view(items, n)[i] == value_view(items[i]),
    decreases n,
{
    if n > 0 {
        lemma_items_view(items, (n - 1) as nat);
    }
}

/// An array's view has the array's length and holds each item's view in place.
pub proof fn lemma_array_view(items: Seq<Value>)
    ensures
        array_view(items).len() == items.len(),
        forall|i: int| 0 <= i < items.len() ==> #[trigger] array_view(items)[i] == items[i]@,
{
    lemma_items_view(items, items.len());
}

/// A key that none of the first `n` entries bears is not in their map.
pub proof fn lemma_entries_view_absent(entries: Seq<(String, Value)>, n: nat, key: Seq<char>)
    requires
        n <= entries.len(),
        forall|j: int| 0 <= j < n ==> (#[trigger] entries[j]).0@ != key,
    ensures
        !entries_view(entries, n).contains_key(key),
    decreases n,
{
    if n > 0 {
        lemma_entries_view_absent(entries, (n - 1) as nat, key);
    }
}

/// The last of the first `n` entries that bears a key decides its value.
pub proof fn lemma_entries_view_last(
    entries: Seq<(String, Value)>,
    n: nat,
    i: int,
    key: Seq<char>,
)
    requires
        0 <= i < n <= entries.len(),
        entries[i].0@ == key,
        forall|j: int| i < j < n ==> (#[trigger] entries[j]).0@ != key,
    ensures
        entries_view(entries, n).contains_key(key),
        entries_view(entries, n)[key] == entries[i].1@,
    decreases n,
{
    if i < n - 1 {
        lemma_entries_view_last(entries, (n - 1) as nat, i, key);
    }
}

impl Value {
    /// The text of a `Text` value.
    pub fn as_text(&self) -> (r: Option<&String>)
        ensures
            r.deep_view() == text_of(self@),
    {
        match self {
            Value::Text(s) => Some(s),
            _ => None,
        }
    }

    /// The number of a `Double`, `Int32` or `Int64` value.
    pub fn as_number(&self) -> (r: Option<Number>)
        ensures
            r == number_of(self@),
    {
        match self {
            Value::Double(bits) => Some(Number::Float(*bits)),
            Value::Int32(i) => Some(Number::Int(*i as i64)),
            Value::Int64(i) => Some(Number::Int(*i)),
            _ => None,
        }
    }

    /// The integer of an `Int32` or `Int64` value.
    pub fn as_integer(&self) -> (r: Option<i64>)
        ensures
            r == integer_of(self@),
    {
        match self {
            Value::Int32(i) => Some(*i as i64),
            Value::Int64(i) => Some(*i),
            _ => None,
        }
    }

    /// The items of an `Array` value.
    pub fn as_array(&self) -> (r: Option<&Vec<Value>>)
        ensures
            r.deep_view() == array_of(self@),
    {
        match self {
            Value::Array(items) => {
                proof {
                    lemma_array_view(items@);
                    assert(items.deep_view() =~= array_view(items@));
                }
                Some(items)
            },
            _ => None,
        }
    }

    /// The sub-document of a `Document` value.
    pub fn as_document(&self) -> (r: Option<&Document>)
        ensures
            r.deep_view() == document_of(self@),
    {
        match self {
            Value::Document(d) => Some(d),
            _ => None,
        }
    }
}

/// The text that a value holds, if it is text.
pub open spec fn text_of(v: ValueView) -> Option<Seq<char>> {
    match v {
        ValueView::Text(s) => Some(s),
        _ => None,
    }
}

/// The number that a value holds, if it is numeric. An integer of either
/// width is a number; so is a double.
pub open spec fn number_of(v: ValueView) -> Option<Number> {
    match v {
        ValueView::Double(bits) => Some(Number::Float(bits)),
        ValueView::Int32(i) => Some(Number::Int(i as i64)),
        ValueView::Int64(i) => Some(Number::Int(i)),
        _ => None,
    }
}

/// The integer that a value holds, if it is an integer of either width.
pub open spec fn integer_of(v: ValueView) -> Option<i64> {
    match v {
        ValueView::Int32(i) => Some(i as i64),
        ValueView::Int64(i) => Some(i),
        _ => None,
    }
}

/// The items that a value holds, if it is an array.
pub open spec fn array_of(v: ValueView) -> Option<Seq<ValueView>> {
    match v {
        ValueView::Array(items) => Some(items),
        _ => None,
    }
}

/// The sub-document that a value holds, if it is one.
pub open spec fn document_of(v: ValueView) -> Option<DocumentView> {
    match v {
        ValueView::Document(d) => Some(d),
        _ => None,
    }
}

/// The value under `key`, if the document has one.
pub open spec fn lookup(d: DocumentView, key: Seq<char>) -> Option<ValueView> {
    if d.contains_key(key) {
        Some(d[key])
    } else {
        None
    }
}

impl Document {
    /// A document without entries.
    pub fn new() -> (d: Document)
        ensures
            d@ == Map::<Seq<char>, ValueView>::empty(),
    {
        Document { entries: Vec::new() }
    }

    /// Sets the value under `key`, overriding an earlier one.
    pub fn insert(&mut self, key: String, value: Value)
        ensures
            final(self)@ == old(self)@.insert(key@, value@),
    {
        let ghost before = self.entries@;
        self.entries.push((key, value));
        proof {
            let after = self.entries@;
            assert(after.len() == before.len() + 1);
            lemma_entries_view_prefix(after, before, before.len());
        }
    }

    /// The value under `key`, if there is one.
    pub fn get(&self, key: &str) -> (r: Option<&Value>)
        ensures
            r.deep_view() == lookup(self@, key@),
    {
        let wanted = key.to_owned();
        let mut i: usize = self.entries.len();
        while i > 0
            invariant
                i <= self.entries.len(),
                wanted@ == key@,
                forall|j: int| i <= j < self.entries.len() ==> (#[trigger] self.entries@[j]).0@ != key@,
            decreases i,
        {
            i = i - 1;
            if self.entries[i].0 == wanted {
                proof {
                    lemma_entries_view_last(self.entries@, self.entries@.len(), i as int, key@);
                }
                return Some(&self.entries[i].1);
            }
        }
        proof {
            lemma_entries_view_absent(self.entries@, self.entries@.len(), key@);
        }
        None
    }
}

/// Entries that agree on their first `n` places describe the same map there.
pub proof fn lemma_entries_view_prefix(
    a: Seq<(String, Value)>,
    b: Seq<(String, Value)>,
    n: nat,
)
    requires
        n <= a.len(),
        n <= b.len(),
        forall|j: int| 0 <= j < n ==> a[j] == b[j],
    ensures
        entries_view(a, n) == entries_view(b, n),
    decreases n,
{
    if n > 0 {
        lemma_entries_view_prefix(a, b, (n - 1) as nat);
    }
}

} // verus!
