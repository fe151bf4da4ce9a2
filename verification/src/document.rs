//! The loosely typed document tree that the storage layer trades in: a
//! tagged union of the scalar and composite shapes a stored value can take,
//! and ordered key/value documents built from it.

use vstd::prelude::*;
use vstd::pervasive::VecAdditionalExecFns;
use vstd::seq_lib::*;

verus! {

/// An opaque store-assigned identifier. The mapper never interprets the
/// bytes; it only carries them through.
#[derive(Debug, PartialEq, Eq)]
pub struct ObjectId {
    pub bytes: Vec<u8>,
}

impl View for ObjectId {
    type V = Seq<u8>;

    open spec fn view(&self) -> Seq<u8> {
        self.bytes@
    }
}

impl Clone for ObjectId {
    fn clone(&self) -> (r: Self)
        ensures
            r@ == self@,
    {
        let bytes = self.bytes.clone();
        assert(bytes@ =~= self.bytes@);
        ObjectId { bytes }
    }
}

/// The mathematical model of a document value.
#[verifier::ext_equal]
pub enum ValueV {
    Null,
    Boolean(bool),
    Int32(i32),
    Text(Seq<char>),
    Array(Seq<ValueV>),
    SubDoc(Seq<EntryV>),
    DateTime(i64),
    Oid(Seq<u8>),
}

/// The mathematical model of one key/value pair of a document.
#[verifier::ext_equal]
pub struct EntryV {
    pub key: Seq<char>,
    pub value: ValueV,
}

/// One stored value: null, a scalar, an array, or a nested document.
/// Timestamps are held as milliseconds since the epoch.
#[derive(Debug, PartialEq)]
pub enum Value {
    Null,
    Boolean(bool),
    Int32(i32),
    Text(String),
    Array(Vec<Value>),
    SubDoc(Document),
    DateTime(i64),
    Oid(ObjectId),
}

/// One key/value pair of a document.
#[derive(Debug, PartialEq)]
pub struct Entry {
    pub key: String,
    pub value: Value,
}

/// An ordered sequence of key/value pairs. Lookup takes the first entry
/// whose key matches, and `insert` replaces in place, so a document built
/// only by `insert` has one entry per key.
#[derive(Debug, PartialEq)]
pub struct Document {
    pub entries: Vec<Entry>,
}

/// The models of a sequence of values, element by element.
pub open spec fn values_view(items: Seq<Value>) -> Seq<ValueV>
    decreases items,
{
    Seq::new(
        items.len(),
        |i: int|
            if 0 <= i < items.len() {
                items[i]@
            } else {
                ValueV::Null
            },
    )
}

/// The models of a sequence of entries, element by element.
pub open spec fn entries_view(entries: Seq<Entry>) -> Seq<EntryV>
    decreases entries,
{
    Seq::new(
        entries.len(),
        |i: int|
            if 0 <= i < entries.len() {
                entries[i]@
            } else {
                EntryV { key: Seq::empty(), value: ValueV::Null }
            },
    )
}

impl View for Value {
    type V = ValueV;

    open spec fn view(&self) -> ValueV
        decreases self,
    {
        match self {
            Value::Null => ValueV::Null,
            Value::Boolean(b) => ValueV::Boolean(*b),
            Value::Int32(n) => ValueV::Int32(*n),
            Value::Text(s) => ValueV::Text(s@),
            Value::Array(items) => ValueV::Array(values_view(items@)),
            Value::SubDoc(d) => ValueV::SubDoc(d@),
            Value::DateTime(t) => ValueV::DateTime(*t),
            Value::Oid(o) => ValueV::Oid(o@),
        }
    }
}

impl View for Entry {
    type V = EntryV;

    open spec fn view(&self) -> EntryV
        decreases self,
    {
        EntryV { key: self.key@, value: self.value@ }
    }
}

impl View for Document {
    type V = Seq<EntryV>;

    open spec fn view(&self) -> Seq<EntryV>
        decreases self,
    {
        entries_view(self.entries@)
    }
}

/// One definitional unfolding of `Value::view`. The five view functions
/// are mutually recursive, so chains of them run out of fuel; these
/// broadcast lemmas hand every application its own unfolding.
pub broadcast proof fn lemma_value_view(v: Value)
    ensures
        #[trigger] v@ == (match v {
            Value::Null => ValueV::Null,
            Value::Boolean(b) => ValueV::Boolean(b),
            Value::Int32(n) => ValueV::Int32(n),
            Value::Text(s) => ValueV::Text(s@),
            Value::Array(items) => ValueV::Array(values_view(items@)),
            Value::SubDoc(d) => ValueV::SubDoc(d@),
            Value::DateTime(t) => ValueV::DateTime(t),
            Value::Oid(o) => ValueV::Oid(o@),
        }),
{
}

/// One definitional unfolding of `Entry::view`.
pub broadcast proof fn lemma_entry_view(e: Entry)
    ensures
        #[trigger] e@ == (EntryV { key: e.key@, value: e.value@ }),
{
}

/// One definitional unfolding of `Document::view`.
pub broadcast proof fn lemma_document_view(d: Document)
    ensures
        #[trigger] d@ == entries_view(d.entries@),
{
}

/// Length and elements of `values_view`, without unfolding it.
pub broadcast proof fn lemma_values_view(items: Seq<Value>)
    ensures
        (#[trigger] values_view(items)).len() == items.len(),
        forall|i: int| 0 <= i < items.len() ==> #[trigger] values_view(items)[i] == items[i]@,
{
}

/// Length and elements of `entries_view`, without unfolding it.
pub broadcast proof fn lemma_entries_view(entries: Seq<Entry>)
    ensures
        (#[trigger] entries_view(entries)).len() == entries.len(),
        forall|i: int|
            0 <= i < entries.len() ==> #[trigger] entries_view(entries)[i] == entries[i]@,
{
}

pub broadcast group group_document_views {
    lemma_value_view,
    lemma_entry_view,
    lemma_document_view,
    lemma_values_view,
    lemma_entries_view,
}

/// The value stored under `key`: the first entry whose key matches.
pub open spec fn lookup(doc: Seq<EntryV>, key: Seq<char>) -> Option<ValueV>
    decreases doc.len(),
{
    if doc.len() == 0 {
        None
    } else if doc[0].key == key {
        Some(doc[0].value)
    } else {
        lookup(doc.skip(1), key)
    }
}

/// The document after storing `value` under `key`: the first entry with a
/// matching key is replaced in place; with no match the pair is appended.
pub open spec fn store(doc: Seq<EntryV>, key: Seq<char>, value: ValueV) -> Seq<EntryV>
    decreases doc.len(),
{
    if doc.len() == 0 {
        seq![EntryV { key, value }]
    } else if doc[0].key == key {
        seq![EntryV { key, value }] + doc.skip(1)
    } else {
        seq![doc[0]] + store(doc.skip(1), key, value)
    }
}

/// The text stored under `key`, when the entry is there and holds text.
pub open spec fn text_at(doc: Seq<EntryV>, key: Seq<char>) -> Option<Seq<char>> {
    match lookup(doc, key) {
        Some(ValueV::Text(s)) => Some(s),
        _ => None,
    }
}

/// The 32-bit integer stored under `key`, when the entry is there and
/// holds one.
pub open spec fn int32_at(doc: Seq<EntryV>, key: Seq<char>) -> Option<i32> {
    match lookup(doc, key) {
        Some(ValueV::Int32(n)) => Some(n),
        _ => None,
    }
}

/// The timestamp stored under `key`, when the entry is there and holds
/// one, as milliseconds since the epoch.
pub open spec fn datetime_at(doc: Seq<EntryV>, key: Seq<char>) -> Option<i64> {
    match lookup(doc, key) {
        Some(ValueV::DateTime(t)) => Some(t),
        _ => None,
    }
}

/// The opaque identifier stored under `key`, when the entry is there and
/// holds one.
pub open spec fn oid_at(doc: Seq<EntryV>, key: Seq<char>) -> Option<Seq<u8>> {
    match lookup(doc, key) {
        Some(ValueV::Oid(b)) => Some(b),
        _ => None,
    }
}

/// The array stored under `key`, when the entry is there and holds one.
pub open spec fn array_at(doc: Seq<EntryV>, key: Seq<char>) -> Option<Seq<ValueV>> {
    match lookup(doc, key) {
        Some(ValueV::Array(items)) => Some(items),
        _ => None,
    }
}

/// The document after removing the first entry whose key matches, if any.
pub open spec fn erase(doc: Seq<EntryV>, key: Seq<char>) -> Seq<EntryV>
    decreases doc.len(),
{
    if doc.len() == 0 {
        doc
    } else if doc[0].key == key {
        doc.skip(1)
    } else {
        seq![doc[0]] + erase(doc.skip(1), key)
    }
}

proof fn lemma_lookup_at(doc: Seq<EntryV>, key: Seq<char>, i: int)
    requires
        0 <= i < doc.len(),
        doc[i].key == key,
        forall|j: int| 0 <= j < i ==> doc[j].key != key,
    ensures
        lookup(doc, key) == Some(doc[i].value),
    decreases i,
{
    if i > 0 {
        lemma_lookup_at(doc.skip(1), key, i - 1);
    }
}

proof fn lemma_lookup_absent(doc: Seq<EntryV>, key: Seq<char>)
    requires
        forall|j: int| 0 <= j < doc.len() ==> doc[j].key != key,
    ensures
        lookup(doc, key) is None,
    decreases doc.len(),
{
    if doc.len() > 0 {
        lemma_lookup_absent(doc.skip(1), key);
    }
}

proof fn lemma_store_at(doc: Seq<EntryV>, key: Seq<char>, value: ValueV, i: int)
    requires
        0 <= i < doc.len(),
        doc[i].key == key,
        forall|j: int| 0 <= j < i ==> doc[j].key != key,
    ensures
        store(doc, key, value) == doc.update(i, EntryV { key, value }),
    decreases i,
{
    if i == 0 {
        assert(store(doc, key, value) =~= doc.update(0, EntryV { key, value }));
    } else {
        lemma_store_at(doc.skip(1), key, value, i - 1);
        assert(store(doc, key, value) =~= doc.update(i, EntryV { key, value }));
    }
}

proof fn lemma_store_absent(doc: Seq<EntryV>, key: Seq<char>, value: ValueV)
    requires
        forall|j: int| 0 <= j < doc.len() ==> doc[j].key != key,
    ensures
        store(doc, key, value) == doc.push(EntryV { key, value }),
    decreases doc.len(),
{
    if doc.len() == 0 {
        assert(store(doc, key, value) =~= doc.push(EntryV { key, value }));
    } else {
        lemma_store_absent(doc.skip(1), key, value);
        assert(store(doc, key, value) =~= doc.push(EntryV { key, value }));
    }
}

proof fn lemma_erase_at(doc: Seq<EntryV>, key: Seq<char>, i: int)
    requires
        0 <= i < doc.len(),
        doc[i].key == key,
        forall|j: int| 0 <= j < i ==> doc[j].key != key,
    ensures
        erase(doc, key) == doc.remove(i),
    decreases i,
{
    if i == 0 {
        assert(erase(doc, key) =~= doc.remove(0));
    } else {
        lemma_erase_at(doc.skip(1), key, i - 1);
        assert(erase(doc, key) =~= doc.remove(i));
    }
}

proof fn lemma_erase_absent(doc: Seq<EntryV>, key: Seq<char>)
    requires
        forall|j: int| 0 <= j < doc.len() ==> doc[j].key != key,
    ensures
        erase(doc, key) == doc,
    decreases doc.len(),
{
    if doc.len() == 0 {
        assert(erase(doc, key) =~= doc);
    } else {
        lemma_erase_absent(doc.skip(1), key);
        assert(erase(doc, key) =~= doc);
    }
}

impl Document {
    pub fn new() -> (d: Document)
        ensures
            d@ == Seq::<EntryV>::empty(),
    {
        let d = Document { entries: Vec::new() };
        proof {
            assert(d@ =~= Seq::<EntryV>::empty());
        }
        d
    }

    pub fn len(&self) -> (n: usize)
        ensures
            n == self@.len(),
    {
        self.entries.len()
    }

    pub fn is_empty(&self) -> (r: bool)
        ensures
            r == (self@.len() == 0),
    {
        self.entries.len() == 0
    }

    /// The position of the first entry stored under `key`, if any.
    fn position_of(&self, key: &String) -> (r: Option<usize>)
        ensures
            match r {
                Some(i) => {
                    &&& i < self@.len()
                    &&& self@[i as int].key == key@
                    &&& forall|j: int| 0 <= j < i ==> self@[j].key != key@
                },
                None => forall|j: int| 0 <= j < self@.len() ==> self@[j].key != key@,
            },
    {
        let n = self.entries.len();
        let mut i: usize = 0;
        while i < n
            invariant
                i <= n,
                n == self@.len(),
                n == self.entries.len(),
                forall|j: int| 0 <= j < i ==> self@[j].key != key@,
            decreases n - i,
        {
            if self.entries[i].key == *key {
                return Some(i);
            }
            i += 1;
        }
        None
    }

    /// The value stored under `key`: the first entry whose key matches.
    pub fn get<'a>(&'a self, key: &String) -> (r: Option<&'a Value>)
        ensures
            match r {
                Some(v) => lookup(self@, key@) == Some(v@),
                None => lookup(self@, key@) is None,
            },
    {
        match self.position_of(key) {
            Some(i) => {
                proof {
                    lemma_lookup_at(self@, key@, i as int);
                }
                Some(&self.entries[i].value)
            }
            None => {
                proof {
                    lemma_lookup_absent(self@, key@);
                }
                None
            }
        }
    }

    /// Store `value` under `key`, replacing the first entry with a matching
    /// key in place, or appending a new entry when none matches.
    pub fn insert(&mut self, key: String, value: Value)
        ensures
            final(self)@ == store(old(self)@, key@, value@),
    {
        let entry = Entry { key, value };
        match self.position_of(&entry.key) {
            Some(i) => {
                proof {
                    lemma_store_at(old(self)@, entry.key@, entry.value@, i as int);
                }
                let ghost prior = self@;
                let ghost replacement = entry@;
                self.entries.set(i, entry);
                proof {
                    assert(self@ =~= prior.update(i as int, replacement));
                }
            }
            None => {
                proof {
                    lemma_store_absent(old(self)@, entry.key@, entry.value@);
                }
                let ghost prior = self@;
                let ghost appended = entry@;
                self.entries.push(entry);
                proof {
                    assert(self@ =~= prior.push(appended));
                }
            }
        }
    }

    /// The text stored under `key`, when the entry is there and holds
    /// text.
    pub fn get_str<'a>(&'a self, key: &String) -> (r: Option<&'a String>)
        ensures
            match r {
                Some(s) => text_at(self@, key@) == Some(s@),
                None => text_at(self@, key@) is None,
            },
    {
        match self.get(key) {
            Some(Value::Text(s)) => Some(s),
            _ => None,
        }
    }

    /// The 32-bit integer stored under `key`, when the entry is there and
    /// holds one.
    pub fn get_i32(&self, key: &String) -> (r: Option<i32>)
        ensures
            match r {
                Some(n) => int32_at(self@, key@) == Some(n),
                None => int32_at(self@, key@) is None,
            },
    {
        match self.get(key) {
            Some(Value::Int32(n)) => Some(*n),
            _ => None,
        }
    }

    /// The timestamp stored under `key`, when the entry is there and
    /// holds one, as milliseconds since the epoch.
    pub fn get_datetime(&self, key: &String) -> (r: Option<i64>)
        ensures
            match r {
                Some(t) => datetime_at(self@, key@) == Some(t),
                None => datetime_at(self@, key@) is None,
            },
    {
        match self.get(key) {
            Some(Value::DateTime(t)) => Some(*t),
            _ => None,
        }
    }

    /// The opaque identifier stored under `key`, when the entry is there
    /// and holds one.
    pub fn get_object_id<'a>(&'a self, key: &String) -> (r: Option<&'a ObjectId>)
        ensures
            match r {
                Some(o) => oid_at(self@, key@) == Some(o@),
                None => oid_at(self@, key@) is None,
            },
    {
        match self.get(key) {
            Some(Value::Oid(o)) => Some(o),
            _ => None,
        }
    }

    /// The array stored under `key`, when the entry is there and holds
    /// one.
    pub fn get_array<'a>(&'a self, key: &String) -> (r: Option<&'a Vec<Value>>)
        ensures
            match r {
                Some(items) => array_at(self@, key@) == Some(values_view(items@)),
                None => array_at(self@, key@) is None,
            },
    {
        match self.get(key) {
            Some(Value::Array(items)) => Some(items),
            _ => None,
        }
    }

    /// Remove the first entry stored under `key`, handing its value back.
    pub fn remove(&mut self, key: &String) -> (r: Option<Value>)
        ensures
            final(self)@ == erase(old(self)@, key@),
            match r {
                Some(v) => lookup(old(self)@, key@) == Some(v@),
                None => lookup(old(self)@, key@) is None && final(self)@ == old(self)@,
            },
    {
        match self.position_of(key) {
            Some(i) => {
                proof {
                    lemma_lookup_at(self@, key@, i as int);
                    lemma_erase_at(self@, key@, i as int);
                }
                let ghost prior = self@;
                let removed = self.entries.remove(i);
                proof {
                    assert(self@ =~= prior.remove(i as int));
                }
                Some(removed.value)
            }
            None => {
                proof {
                    lemma_lookup_absent(self@, key@);
                    lemma_erase_absent(self@, key@);
                }
                None
            }
        }
    }
}

} // verus!
