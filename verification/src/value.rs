//! Structured values, template values, and the conversion from one to the
//! other.
//!
//! A structured value is what a document field holds. A template value is
//! what the engine works on. Both are modelled by plain mathematical values
//! (`ValueModel`, `TemplateModel`), and every contract speaks of those.

use crate::engine::{copy_value, is_integer, kind, value_is_integer, value_kind, Kind};
use crate::helper::{Helper, HelperRegistry};
use std::sync::Arc;
use vstd::prelude::*;
use vstd::string::*;
use vstd::utf8::{decode_utf8, valid_utf8};

verus! {

/// `Arc::clone`: a second handle to the same shared value.
#[verifier::external_body]
pub(crate) fn share<T>(handle: &Arc<T>) -> (r: Arc<T>)
    ensures
        r == *handle,
{
    Arc::clone(handle)
}

/// `String::from_utf8`: the text that the bytes encode, where they are valid
/// UTF-8, and nothing where they are not.
#[verifier::external_body]
pub(crate) fn text_of_utf8(bytes: Vec<u8>) -> (r: Option<String>)
    ensures
        match r {
            Some(s) => valid_utf8(bytes@) && s@ == decode_utf8(bytes@),
            None => !valid_utf8(bytes@),
        },
{
    String::from_utf8(bytes).ok()
}

/// A number with a fractional part. The crate never computes with it: it
/// holds the engine's own value and hands it on unchanged.
#[derive(Debug)]
pub struct Real {
    number: minijinja::Value,
}

impl Real {
    /// The engine value that stands for the number.
    pub closed spec fn held(self) -> minijinja::Value {
        self.number
    }

    /// The number that holds `number`.
    pub closed spec fn of(number: minijinja::Value) -> Real {
        Real { number }
    }

    /// Whether the engine takes `number` for a number and for no integer.
    pub open spec fn fits(number: minijinja::Value) -> bool {
        value_kind(number) == Kind::Number && !value_is_integer(number)
    }

    /// What is held is a number and no integer.
    #[verifier::type_invariant]
    spec fn holds_a_number(self) -> bool {
        Real::fits(self.number)
    }

    /// A number is the number made of what it holds.
    pub proof fn lemma_of_held(x: Real)
        ensures
            Real::of(x.held()) == x,
    {
    }

    /// Wraps an engine value that the engine holds as a number and not as an
    /// integer; any other value gives `None`.
    pub fn new(number: minijinja::Value) -> (r: Option<Real>)
        ensures
            r == (if Real::fits(number) {
                Some(Real::of(number))
            } else {
                None
            }),
            r matches Some(x) ==> x.held() == number,
    {
        if kind(&number) == Kind::Number && !is_integer(&number) {
            Some(Real { number })
        } else {
            None
        }
    }

    /// The engine value that stands for the number: a number and no
    /// integer, however the number was made.
    pub fn engine_value(&self) -> (v: &minijinja::Value)
        ensures
            *v == self.held(),
            Real::fits(*v),
    {
        proof {
            use_type_invariant(self);
        }
        &self.number
    }

    /// A second handle to the same number.
    pub fn duplicate(&self) -> (r: Real)
        ensures
            r == *self,
    {
        proof {
            use_type_invariant(self);
        }
        Real { number: copy_value(&self.number) }
    }
}

/// A mapping from field names to structured values.
#[derive(Debug)]
pub struct Dict {
    entries: Vec<(String, StructuredValue)>,
}

/// What a document field may hold. No other shape exists.
#[derive(Debug)]
pub enum StructuredValue {
    /// A mapping from names to values; shared, never copied deeply.
    Dict(Arc<Dict>),
    /// An ordered sequence of values.
    List(Vec<StructuredValue>),
    YString(String),
    Bool(bool),
    Int(i64),
    Float(Real),
    /// A shared handle to another document.
    Ycd(Arc<Document>),
}

/// A record of named fields, with the helpers bound to it. The bindings are
/// fixed when the document is built, so a document that is shared is only
/// ever read.
#[derive(Debug)]
pub struct Document {
    fields: Dict,
    bound_helpers: HelperRegistry,
}

/// The entries of a mapping, in the order they are held.
pub type DictModel = Seq<(Seq<char>, ValueModel)>;

/// The mathematical value of a `StructuredValue`.
pub enum ValueModel {
    Dict(DictModel),
    List(Seq<ValueModel>),
    Text(Seq<char>),
    Bool(bool),
    Int(i64),
    Float(Real),
    Document(DocumentModel),
}

/// The mathematical value of a `Document`.
pub struct DocumentModel {
    pub fields: DictModel,
    pub helpers: Seq<Helper>,
}

/// A value as the template engine sees it: a scalar, a sequence, or an
/// object that resolves attributes and methods when the engine asks.
#[derive(Debug)]
pub enum TemplateValue {
    Undefined,
    Null,
    Bool(bool),
    U64(u64),
    U128(u128),
    I64(i64),
    I128(i128),
    F64(Real),
    Char(char),
    Str(String),
    Bytes(Vec<u8>),
    List(Vec<TemplateValue>),
    /// A mapping that looks its entries up on demand.
    Mapping(Arc<Dict>),
    /// A document, with its fields as attributes and its helpers as methods.
    Document(Arc<Document>),
}

/// The mathematical value of a `TemplateValue`.
pub enum TemplateModel {
    Undefined,
    Null,
    Bool(bool),
    U64(u64),
    U128(u128),
    I64(i64),
    I128(i128),
    F64(Real),
    Char(char),
    Str(Seq<char>),
    Bytes(Seq<u8>),
    List(Seq<TemplateModel>),
    Mapping(DictModel),
    Document(DocumentModel),
}

/// The model of a mapping's entries.
pub closed spec fn dict_model(d: Dict) -> DictModel
    decreases d,
{
    Seq::new(
        d.entries.len() as nat,
        |i: int|
            if 0 <= i < d.entries.len() {
                (d.entries[i].0@, value_model(d.entries[i].1))
            } else {
                arbitrary()
            },
    )
}

/// The model of a structured value.
pub open spec fn value_model(v: StructuredValue) -> ValueModel
    decreases v,
{
    match v {
        StructuredValue::Dict(d) => ValueModel::Dict(dict_model(*d)),
        StructuredValue::List(items) => ValueModel::List(
            Seq::new(
                items.len() as nat,
                |i: int| if 0 <= i < items.len() { value_model(items[i]) } else { arbitrary() },
            ),
        ),
        StructuredValue::YString(s) => ValueModel::Text(s@),
        StructuredValue::Bool(b) => ValueModel::Bool(b),
        StructuredValue::Int(n) => ValueModel::Int(n),
        StructuredValue::Float(r) => ValueModel::Float(r),
        StructuredValue::Ycd(d) => ValueModel::Document(document_model(*d)),
    }
}

/// The model of a document.
pub closed spec fn document_model(d: Document) -> DocumentModel
    decreases d,
{
    DocumentModel { fields: dict_model(d.fields), helpers: d.bound_helpers@ }
}

/// The model of a template value.
pub open spec fn template_model(v: TemplateValue) -> TemplateModel
    decreases v,
{
    match v {
        TemplateValue::Undefined => TemplateModel::Undefined,
        TemplateValue::Null => TemplateModel::Null,
        TemplateValue::Bool(b) => TemplateModel::Bool(b),
        TemplateValue::U64(n) => TemplateModel::U64(n),
        TemplateValue::U128(n) => TemplateModel::U128(n),
        TemplateValue::I64(n) => TemplateModel::I64(n),
        TemplateValue::I128(n) => TemplateModel::I128(n),
        TemplateValue::F64(r) => TemplateModel::F64(r),
        TemplateValue::Char(c) => TemplateModel::Char(c),
        TemplateValue::Str(s) => TemplateModel::Str(s@),
        TemplateValue::Bytes(b) => TemplateModel::Bytes(b@),
        TemplateValue::List(items) => TemplateModel::List(
            Seq::new(
                items.len() as nat,
                |i: int| if 0 <= i < items.len() { template_model(items[i]) } else { arbitrary() },
            ),
        ),
        TemplateValue::Mapping(d) => TemplateModel::Mapping(dict_model(*d)),
        TemplateValue::Document(d) => TemplateModel::Document(document_model(*d)),
    }
}

impl View for Dict {
    type V = DictModel;

    open spec fn view(&self) -> DictModel {
        dict_model(*self)
    }
}

impl View for StructuredValue {
    type V = ValueModel;

    open spec fn view(&self) -> ValueModel {
        value_model(*self)
    }
}

impl View for Document {
    type V = DocumentModel;

    open spec fn view(&self) -> DocumentModel {
        document_model(*self)
    }
}

impl View for TemplateValue {
    type V = TemplateModel;

    open spec fn view(&self) -> TemplateModel {
        template_model(*self)
    }
}

/// Something that is found by its name.
pub trait Named {
    /// The name.
    spec fn name_model(&self) -> Seq<char>;

    /// The name.
    fn name_text(&self) -> (r: &String)
        ensures
            r@ == self.name_model(),
    ;
}

impl Named for (String, StructuredValue) {
    open spec fn name_model(&self) -> Seq<char> {
        self.0@
    }

    fn name_text(&self) -> (r: &String) {
        &self.0
    }
}

/// The names of the entries, in order.
pub open spec fn names_of<T: Named>(entries: Seq<T>) -> Seq<Seq<char>> {
    Seq::new(entries.len(), |i: int| entries[i].name_model())
}

/// The index of the first entry that is named `key`.
pub fn position_of<T: Named>(entries: &Vec<T>, key: &str) -> (r: Option<usize>)
    ensures
        match r {
            Some(i) => i < entries.len() && first_index(names_of(entries@), key@) == Some(
                i as int,
            ),
            None => first_index(names_of(entries@), key@) is None,
        },
{
    let wanted = String::from_str(key);
    let ghost keys = names_of(entries@);
    let mut i: usize = 0;
    while i < entries.len()
        invariant
            i <= entries.len(),
            wanted@ == key@,
            keys == names_of(entries@),
            forall|j: int| 0 <= j < i ==> keys[j] != key@,
        decreases entries.len() - i,
    {
        assert(keys[i as int] == entries[i as int].name_model());
        if *entries[i].name_text() == wanted {
            proof {
                lemma_first_index(keys, key@);
            }
            return Some(i);
        }
        i += 1;
    }
    proof {
        lemma_first_index(keys, key@);
    }
    None
}

/// The index of the first of `keys` that equals `key`.
pub open spec fn first_index(keys: Seq<Seq<char>>, key: Seq<char>) -> Option<int>
    decreases keys.len(),
{
    if keys.len() == 0 {
        None
    } else {
        match first_index(keys.drop_last(), key) {
            Some(i) => Some(i),
            None => if keys.last() == key {
                Some(keys.len() - 1)
            } else {
                None
            },
        }
    }
}

/// `first_index` finds the least index that holds `key`, and finds none
/// exactly when no index holds it.
pub proof fn lemma_first_index(keys: Seq<Seq<char>>, key: Seq<char>)
    ensures
        match first_index(keys, key) {
            Some(i) => 0 <= i < keys.len() && keys[i] == key && forall|j: int|
                0 <= j < i ==> keys[j] != key,
            None => forall|j: int| 0 <= j < keys.len() ==> keys[j] != key,
        },
    decreases keys.len(),
{
    if keys.len() > 0 {
        let front = keys.drop_last();
        lemma_first_index(front, key);
        match first_index(front, key) {
            Some(i) => {
                assert(front[i] == keys[i]);
                assert forall|j: int| 0 <= j < i implies keys[j] != key by {
                    assert(front[j] == keys[j]);
                }
            },
            None => {
                assert forall|j: int| 0 <= j < keys.len() - 1 implies keys[j] != key by {
                    assert(front[j] == keys[j]);
                }
            },
        }
    }
}

/// The names of a mapping's entries, in order.
pub open spec fn entry_keys(entries: DictModel) -> Seq<Seq<char>> {
    Seq::new(entries.len(), |i: int| entries[i].0)
}

/// The value that `key` maps to: that of the first entry named `key`.
pub open spec fn lookup(entries: DictModel, key: Seq<char>) -> Option<ValueModel> {
    match first_index(entry_keys(entries), key) {
        Some(i) => Some(entries[i].1),
        None => None,
    }
}

/// `entries` with `key` mapped to `value`: the first entry named `key` is
/// replaced where it stands; where there is none, the entry is added at the
/// end.
pub open spec fn put(entries: DictModel, key: Seq<char>, value: ValueModel) -> DictModel {
    match first_index(entry_keys(entries), key) {
        Some(i) => entries.update(i, (key, value)),
        None => entries.push((key, value)),
    }
}

/// Whether no two entries share a name.
pub open spec fn distinct_keys(entries: DictModel) -> bool {
    forall|i: int, j: int| 0 <= i < j < entries.len() ==> entries[i].0 != entries[j].0
}

/// What the engine gets for a structured value. A mapping and a document are
/// handed over whole, to be asked for their entries later; a list is
/// converted item by item; a scalar keeps its value.
pub open spec fn convert(v: ValueModel) -> TemplateModel
    decreases v,
{
    match v {
        ValueModel::Dict(entries) => TemplateModel::Mapping(entries),
        ValueModel::List(items) => TemplateModel::List(
            Seq::new(
                items.len(),
                |i: int| if 0 <= i < items.len() { convert(items[i]) } else { arbitrary() },
            ),
        ),
        ValueModel::Text(s) => TemplateModel::Str(s),
        ValueModel::Bool(b) => TemplateModel::Bool(b),
        ValueModel::Int(n) => TemplateModel::I64(n),
        ValueModel::Float(r) => TemplateModel::F64(r),
        ValueModel::Document(d) => TemplateModel::Document(d),
    }
}

impl Dict {
    /// No two entries share a name.
    #[verifier::type_invariant]
    spec fn names_are_distinct(self) -> bool {
        distinct_keys(dict_model(self))
    }

    /// A mapping with no entries.
    pub fn new() -> (d: Dict)
        ensures
            d@ == Seq::<(Seq<char>, ValueModel)>::empty(),
            distinct_keys(d@),
    {
        let entries: Vec<(String, StructuredValue)> = Vec::new();
        assert(dict_model(Dict { entries }) =~= Seq::<(Seq<char>, ValueModel)>::empty());
        Dict { entries }
    }

    /// No two entries of a mapping share a name, however it was made.
    pub fn names_distinct(&self)
        ensures
            distinct_keys(self@),
    {
        proof {
            use_type_invariant(self);
        }
    }

    /// The number of entries.
    pub fn len(&self) -> (n: usize)
        ensures
            n == self@.len(),
    {
        self.entries.len()
    }

    /// The index of the first entry named `key`.
    fn position(&self, key: &str) -> (r: Option<usize>)
        ensures
            match r {
                Some(i) => i < self.entries.len() && first_index(entry_keys(self@), key@) == Some(
                    i as int,
                ),
                None => first_index(entry_keys(self@), key@).is_none(),
            },
    {
        assert(entry_keys(self@) =~= names_of(self.entries@));
        position_of(&self.entries, key)
    }

    /// Whether an entry is named `key`.
    pub fn contains_key(&self, key: &str) -> (r: bool)
        ensures
            r == lookup(self@, key@).is_some(),
    {
        self.position(key).is_some()
    }

    /// The value that `key` maps to.
    pub fn get(&self, key: &str) -> (r: Option<&StructuredValue>)
        ensures
            match r {
                Some(v) => lookup(self@, key@) == Some(v@),
                None => lookup(self@, key@).is_none(),
            },
    {
        match self.position(key) {
            Some(i) => Some(&self.entries[i].1),
            None => None,
        }
    }

    /// Maps `key` to `value`, replacing what `key` mapped to before. Every
    /// other name maps to what it mapped to before, and no two names are
    /// the same.
    pub fn insert(&mut self, key: String, value: StructuredValue)
        ensures
            final(self)@ == put(old(self)@, key@, value@),
            lookup(final(self)@, key@) == Some(value@),
            forall|other: Seq<char>|
                other != key@ ==> lookup(final(self)@, other) == lookup(old(self)@, other),
            distinct_keys(final(self)@),
    {
        proof {
            use_type_invariant(&*self);
        }
        let ghost before = self@;
        proof {
            lemma_put(before, key@, value@);
        }
        let found = self.position(key.as_str());
        let mut taken = Dict::new();
        core::mem::swap(self, &mut taken);
        let mut entries = taken.entries;
        match found {
            Some(i) => {
                entries.set(i, (key, value));
                assert(dict_model(Dict { entries }) =~= before.update(i as int, (key@, value@)));
            },
            None => {
                entries.push((key, value));
                assert(dict_model(Dict { entries }) =~= before.push((key@, value@)));
            },
        }
        *self = Dict { entries };
    }

    /// The name of the entry at `index`.
    pub fn key_at(&self, index: usize) -> (key: &String)
        requires
            index < self@.len(),
        ensures
            key@ == self@[index as int].0,
    {
        &self.entries[index].0
    }
}

/// `keys` with `key` put: as they are where `key` is among them, with `key`
/// added at the end where it is not.
pub open spec fn put_key(keys: Seq<Seq<char>>, key: Seq<char>) -> Seq<Seq<char>> {
    match first_index(keys, key) {
        Some(_) => keys,
        None => keys.push(key),
    }
}

/// Whether no two of `keys` are the same.
pub open spec fn distinct(keys: Seq<Seq<char>>) -> bool {
    forall|i: int, j: int| 0 <= i < j < keys.len() ==> keys[i] != keys[j]
}

/// After a key is put, it is found where it stood or at the end, every
/// other key is found where it was, and distinct keys stay distinct.
pub proof fn lemma_put_key(keys: Seq<Seq<char>>, key: Seq<char>)
    ensures
        first_index(put_key(keys, key), key) == Some(
            match first_index(keys, key) {
                Some(i) => i,
                None => keys.len() as int,
            },
        ),
        forall|other: Seq<char>|
            other != key ==> first_index(put_key(keys, key), other) == first_index(keys, other),
        distinct(keys) ==> distinct(put_key(keys, key)),
{
    let after = put_key(keys, key);
    lemma_first_index(keys, key);
    lemma_first_index(after, key);
    assert forall|other: Seq<char>| other != key implies first_index(after, other)
        == first_index(keys, other) by {
        lemma_first_index(keys, other);
        lemma_first_index(after, other);
        match first_index(keys, other) {
            Some(i) => {
                assert(after[i] == other);
            },
            None => {},
        }
        match first_index(after, other) {
            Some(i) => {
                if i < keys.len() {
                    assert(keys[i] == other);
                }
            },
            None => {},
        }
    }
    if first_index(keys, key) is None {
        let n = keys.len() as int;
        assert(after[n] == key);
        assert forall|j: int| 0 <= j < n implies after[j] != key by {
            assert(after[j] == keys[j]);
        }
    }
}

/// A mapping with distinct names keeps them distinct when a name is mapped,
/// the name then maps to the new value, and every other name maps to what it
/// mapped to before.
pub proof fn lemma_put(entries: DictModel, key: Seq<char>, value: ValueModel)
    ensures
        lookup(put(entries, key, value), key) == Some(value),
        forall|other: Seq<char>|
            other != key ==> lookup(put(entries, key, value), other) == lookup(entries, other),
        distinct_keys(entries) ==> distinct_keys(put(entries, key, value)),
{
    let after = put(entries, key, value);
    let keys = entry_keys(entries);
    lemma_put_key(keys, key);
    lemma_first_index(keys, key);
    assert(entry_keys(after) =~= put_key(keys, key));
    assert forall|other: Seq<char>| other != key implies lookup(after, other) == lookup(
        entries,
        other,
    ) by {
        lemma_first_index(keys, other);
    }
    if distinct_keys(entries) {
        assert(distinct(keys));
        assert forall|i: int, j: int| 0 <= i < j < after.len() implies after[i].0
            != after[j].0 by {
            assert(put_key(keys, key)[i] == after[i].0);
            assert(put_key(keys, key)[j] == after[j].0);
        }
    }
}

impl StructuredValue {
    /// Hands the value to the engine's side: see `convert`. This never fails.
    pub fn to_template(&self) -> (r: TemplateValue)
        ensures
            r@ == convert(self@),
        decreases self,
    {
        match self {
            StructuredValue::Dict(d) => TemplateValue::Mapping(share(d)),
            StructuredValue::List(items) => {
                let mut out: Vec<TemplateValue> = Vec::new();
                let mut i: usize = 0;
                #[verifier::loop_isolation(false)]
                while i < items.len()
                    invariant
                        i <= items.len(),
                        out.len() == i,
                        forall|j: int| 0 <= j < i ==> (#[trigger] out[j])@ == convert(items[j]@),
                    decreases items.len() - i,
                {
                    let item = items[i].to_template();
                    out.push(item);
                    i += 1;
                }
                let r = TemplateValue::List(out);
                assert(r@ =~= convert(self@)) by {
                    assert(r@->List_0 =~= convert(self@)->List_0);
                }
                r
            },
            StructuredValue::YString(s) => TemplateValue::Str(s.clone()),
            StructuredValue::Bool(b) => TemplateValue::Bool(*b),
            StructuredValue::Int(n) => TemplateValue::I64(*n),
            StructuredValue::Float(x) => TemplateValue::F64(x.duplicate()),
            StructuredValue::Ycd(d) => TemplateValue::Document(share(d)),
        }
    }
}

impl Document {
    /// A document with the given fields and helper bindings.
    pub fn new(fields: Dict, bound_helpers: HelperRegistry) -> (d: Document)
        ensures
            d@.fields == fields@,
            d@.helpers == bound_helpers@,
    {
        Document { fields, bound_helpers }
    }

    /// The fields.
    pub fn fields(&self) -> (r: &Dict)
        ensures
            r@ == self@.fields,
    {
        &self.fields
    }

    /// The helper bindings.
    pub fn bound_helpers(&self) -> (r: &HelperRegistry)
        ensures
            r@ == self@.helpers,
    {
        &self.bound_helpers
    }
}

} // verus!
