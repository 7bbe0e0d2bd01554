//! Between the crate's own values and the engine's.
//!
//! The engine calls back into this module while it evaluates a template: for
//! the keys and members of a mapping or a document, for a helper registered
//! as a function, for a method that a value does not know, and for the
//! string-forcing filter. Each function here is what one such callback runs.
//!
//! A document shows its fields under their names and nothing else. Its
//! methods are reached through a door of their own: `method_on` asks the
//! value for the item under the bytes of the method's name, a key that no
//! attribute and no name can be.

use crate::document::{is_converted, is_method};
use crate::engine;
use crate::engine::{
    engine_bool, engine_bytes, engine_char, engine_document, engine_failure, engine_i128,
    engine_i64, engine_list, engine_mapping, engine_method, engine_text, engine_u128,
    engine_u64, is_scalar, value_as_bool, value_as_bytes, value_as_signed, value_as_text,
    value_as_unsigned, value_is_integer, value_kind, value_shown, Kind,
};
use crate::error::{ErrorKind, RenderError};
use crate::helper::{all_marshal, marshal, template_models, Helper};
use crate::text::{decimal_text, force_scalar, forced, integer_of, str_filter};
use crate::value::{
    convert, lookup, share, text_of_utf8, Dict, DictModel, Document, DocumentModel, Real,
    TemplateModel, TemplateValue, ValueModel,
};
use minijinja::{Error, State, Value};
use std::sync::Arc;
use vstd::prelude::*;
use vstd::string::*;
use vstd::utf8::{decode_utf8, valid_utf8};

verus! {

/// The engine's value for a template value: the engine's scalar of the same
/// kind and content, the engine's sequence of the items' values, or the
/// object that asks the mapping or the document for its members. The
/// engine's undefined value and its none are constants of the engine and
/// have no name here, so a value that is or holds one has none either.
pub open spec fn engine_of(m: TemplateModel) -> Option<Value>
    decreases m, 0nat,
{
    match m {
        TemplateModel::Undefined => None,
        TemplateModel::Null => None,
        TemplateModel::Bool(b) => Some(engine_bool(b)),
        TemplateModel::U64(n) => Some(engine_u64(n)),
        TemplateModel::U128(n) => Some(engine_u128(n)),
        TemplateModel::I64(n) => Some(engine_i64(n)),
        TemplateModel::I128(n) => Some(engine_i128(n)),
        TemplateModel::F64(x) => Some(x.held()),
        TemplateModel::Char(c) => Some(engine_char(c)),
        TemplateModel::Str(s) => Some(engine_text(s)),
        TemplateModel::Bytes(b) => Some(engine_bytes(b)),
        TemplateModel::List(items) => match engine_of_first(items, items.len()) {
            Some(values) => Some(engine_list(values)),
            None => None,
        },
        TemplateModel::Mapping(entries) => Some(engine_mapping(entries)),
        TemplateModel::Document(d) => Some(engine_document(d)),
    }
}

/// The engine's values of the first `n` of `items`, in order, where each of
/// them has one.
pub open spec fn engine_of_first(items: Seq<TemplateModel>, n: nat) -> Option<Seq<Value>>
    decreases items, n,
{
    if n == 0 || n > items.len() {
        Some(Seq::empty())
    } else {
        match (engine_of_first(items, (n - 1) as nat), engine_of(items[n - 1])) {
            (Some(front), Some(v)) => Some(front.push(v)),
            _ => None,
        }
    }
}

/// What the converter makes of a structured value always has an engine
/// value.
pub proof fn lemma_converted_has_engine_value(m: ValueModel)
    ensures
        engine_of(convert(m)) is Some,
    decreases m, 0nat,
{
    match m {
        ValueModel::List(items) => {
            lemma_converted_items_have_engine_values(items, items.len());
            assert(convert(m)->List_0.len() == items.len());
        },
        _ => {},
    }
}

/// What the converter makes of the first `n` of a list's items all have
/// engine values.
pub proof fn lemma_converted_items_have_engine_values(items: Seq<ValueModel>, n: nat)
    requires
        n <= items.len(),
    ensures
        engine_of_first(convert(ValueModel::List(items))->List_0, n) is Some,
    decreases items, n,
{
    let converted = convert(ValueModel::List(items))->List_0;
    assert(converted.len() == items.len());
    if n > 0 {
        lemma_converted_items_have_engine_values(items, (n - 1) as nat);
        assert(converted[n - 1] == convert(items[n - 1]));
        lemma_converted_has_engine_value(items[n - 1]);
    }
}

/// The engine's value of a structured value: that of what the converter
/// makes of it.
pub open spec fn engine_of_value(m: ValueModel) -> Value {
    engine_of(convert(m))->0
}

/// Whether an engine value is that of some structured value.
pub open spec fn is_structured(v: Value) -> bool {
    exists|m: ValueModel| v == #[trigger] engine_of_value(m)
}

/// Whether an engine error is one made here from a message.
pub open spec fn is_failure(e: Error) -> bool {
    exists|message: Seq<char>| e == #[trigger] engine_failure(message)
}

/// What is read back out of the engine's value for a template value: the
/// scalar itself, an integer at the width that `narrow_model` gives it, a
/// character as the text of that character, and nothing for a composite.
pub open spec fn read_back(m: TemplateModel) -> Option<TemplateModel> {
    match m {
        TemplateModel::Undefined => Some(TemplateModel::Undefined),
        TemplateModel::Null => Some(TemplateModel::Null),
        TemplateModel::Bool(b) => Some(TemplateModel::Bool(b)),
        TemplateModel::U64(n) => Some(narrow_model(n as i128)),
        TemplateModel::U128(n) => Some(
            if n <= i128::MAX as u128 {
                narrow_model(n as i128)
            } else {
                TemplateModel::U128(n)
            },
        ),
        TemplateModel::I64(n) => Some(narrow_model(n as i128)),
        TemplateModel::I128(n) => Some(narrow_model(n)),
        TemplateModel::F64(x) => Some(TemplateModel::F64(x)),
        TemplateModel::Char(c) => Some(TemplateModel::Str(seq![c])),
        TemplateModel::Str(s) => Some(TemplateModel::Str(s)),
        TemplateModel::Bytes(b) => Some(TemplateModel::Bytes(b)),
        TemplateModel::List(_) => None,
        TemplateModel::Mapping(_) => None,
        TemplateModel::Document(_) => None,
    }
}

/// Whether an engine value stands for a template value: it is of the
/// undefined kind for an undefined value and of the none kind for a null
/// value, it is the engine's sequence of as many values as there are items
/// for a list, and it is the named value of `engine_of` for anything else.
pub open spec fn stands_for(v: Value, m: TemplateModel) -> bool {
    match m {
        TemplateModel::Undefined => value_kind(v) == Kind::Undefined,
        TemplateModel::Null => value_kind(v) == Kind::Null,
        TemplateModel::List(items) => exists|values: Seq<Value>|
            values.len() == items.len() && v == #[trigger] engine_list(values),
        other => engine_of(other) == Some(v),
    }
}

/// Builds the engine's value for a template value: see `engine_of` and
/// `stands_for`. A list is built item by item; a mapping and a document
/// become objects that ask back for their members.
pub fn to_engine(value: &TemplateValue) -> (r: Value)
    ensures
        engine_of(value@) matches Some(v) ==> r == v,
        stands_for(r, value@),
        found_model(r) == read_back(value@),
    decreases value,
{
    match value {
        TemplateValue::Undefined => engine::undefined_value(),
        TemplateValue::Null => engine::null_value(),
        TemplateValue::Bool(b) => engine::bool_value(*b),
        TemplateValue::U64(n) => engine::u64_value(*n),
        TemplateValue::U128(n) => engine::u128_value(*n),
        TemplateValue::I64(n) => engine::i64_value(*n),
        TemplateValue::I128(n) => engine::i128_value(*n),
        TemplateValue::F64(x) => {
            proof {
                Real::lemma_of_held(*x);
            }
            engine::copy_value(x.engine_value())
        },
        TemplateValue::Char(c) => engine::char_value(*c),
        TemplateValue::Str(s) => engine::text_value(s.as_str()),
        TemplateValue::Bytes(b) => {
            let copy = b.clone();
            assert(copy@ =~= b@);
            engine::bytes_value(copy)
        },
        TemplateValue::List(items) => {
            let mut out: Vec<Value> = Vec::new();
            let mut i: usize = 0;
            #[verifier::loop_isolation(false)]
            while i < items.len()
                invariant
                    i <= items.len(),
                    out.len() == i,
                    engine_of_first(value@->List_0, i as nat) matches Some(values) ==> out@
                        == values,
                decreases items.len() - i,
            {
                let ghost before = out@;
                let item = to_engine(&items[i]);
                out.push(item);
                proof {
                    let models = value@->List_0;
                    assert(models[i as int] == items[i as int]@);
                    if engine_of_first(models, (i + 1) as nat) is Some {
                        assert(engine_of_first(models, i as nat) is Some);
                        assert(engine_of(models[i as int]) is Some);
                        assert(out@ =~= before.push(item));
                    }
                }
                i += 1;
            }
            assert(value@->List_0.len() == items.len());
            let ghost values = out@;
            let r = engine::list_value(out);
            assert(stands_for(r, value@)) by {
                let models = value@->List_0;
                assert(value@ == TemplateModel::List(models));
                assert(values.len() == models.len());
                assert(r == engine_list(values));
            }
            r
        },
        TemplateValue::Mapping(d) => engine::mapping_value(share(d)),
        TemplateValue::Document(d) => engine::document_value(share(d)),
    }
}

/// The template model of an integer that the engine holds: 64 bits wide
/// where it fits, 128 bits wide where it does not.
pub open spec fn narrow_model(n: i128) -> TemplateModel {
    if i64::MIN <= n <= i64::MAX {
        TemplateModel::I64(n as i64)
    } else {
        TemplateModel::I128(n)
    }
}

/// The template value of an integer that the engine holds: see
/// `narrow_model`.
pub fn narrow(n: i128) -> (r: TemplateValue)
    ensures
        r@ == narrow_model(n),
{
    if n >= i64::MIN as i128 && n <= i64::MAX as i128 {
        TemplateValue::I64(n as i64)
    } else {
        TemplateValue::I128(n)
    }
}

/// What an engine value was found to be, looking at it from outside.
#[derive(Debug)]
pub enum Found {
    Undefined,
    Null,
    Bool(bool),
    /// An integer that fits 128 bits with a sign.
    Signed(i128),
    /// An integer that fits 128 bits only without a sign.
    Unsigned(u128),
    /// A number that is no integer, as the engine's value of it.
    Number(Value),
    Text(String),
    Bytes(Vec<u8>),
    /// A sequence, a mapping, or any other object.
    Composite,
}

/// The scalar that a finding stands for, if it stands for one.
pub open spec fn scalar_model(found: Found) -> Option<TemplateModel> {
    match found {
        Found::Undefined => Some(TemplateModel::Undefined),
        Found::Null => Some(TemplateModel::Null),
        Found::Bool(b) => Some(TemplateModel::Bool(b)),
        Found::Signed(n) => Some(narrow_model(n)),
        Found::Unsigned(n) => Some(TemplateModel::U128(n)),
        Found::Number(number) => if Real::fits(number) {
            Some(TemplateModel::F64(Real::of(number)))
        } else {
            None
        },
        Found::Text(s) => Some(TemplateModel::Str(s@)),
        Found::Bytes(b) => Some(TemplateModel::Bytes(b@)),
        Found::Composite => None,
    }
}

/// The scalar that is read out of an engine value, by what the engine says
/// of it: its kind first, then, for a number, whether it is an integer and
/// of which sign. A sequence, a mapping and any other object has none.
pub open spec fn found_model(v: Value) -> Option<TemplateModel> {
    match value_kind(v) {
        Kind::Undefined => Some(TemplateModel::Undefined),
        Kind::Null => Some(TemplateModel::Null),
        Kind::Bool => match value_as_bool(v) {
            Some(b) => Some(TemplateModel::Bool(b)),
            None => None,
        },
        Kind::Number => if value_is_integer(v) {
            match value_as_signed(v) {
                Some(n) => Some(narrow_model(n)),
                None => match value_as_unsigned(v) {
                    Some(n) => Some(TemplateModel::U128(n)),
                    None => None,
                },
            }
        } else {
            Some(TemplateModel::F64(Real::of(v)))
        },
        Kind::Text => match value_as_text(v) {
            Some(s) => Some(TemplateModel::Str(s)),
            None => None,
        },
        Kind::Bytes => match value_as_bytes(v) {
            Some(b) => Some(TemplateModel::Bytes(b)),
            None => None,
        },
        _ => None,
    }
}

/// Whether a scalar is read out of each of the values.
pub open spec fn all_found(args: Seq<Value>) -> bool {
    forall|i: int| 0 <= i < args.len() ==> found_model(#[trigger] args[i]) is Some
}

/// The message of the error for an argument that no scalar is read out of.
pub open spec fn no_scalar_message() -> Seq<char> {
    "a helper takes scalar arguments only, not "@ + "an object"@
}

/// What is read out of an engine value can be handed to a helper.
pub proof fn lemma_found_marshals(v: Value)
    ensures
        found_model(v) matches Some(m) ==> marshal(m) is Some,
{
}

/// Looks at an engine value: see `found_model`.
fn inspect(value: &Value) -> (r: Found)
    ensures
        scalar_model(r) == found_model(*value),
{
    match engine::kind(value) {
        Kind::Undefined => Found::Undefined,
        Kind::Null => Found::Null,
        Kind::Bool => match engine::as_bool(value) {
            Some(b) => Found::Bool(b),
            None => Found::Composite,
        },
        Kind::Number => {
            if engine::is_integer(value) {
                match engine::as_signed(value) {
                    Some(n) => Found::Signed(n),
                    None => match engine::as_unsigned(value) {
                        Some(n) => Found::Unsigned(n),
                        None => Found::Composite,
                    },
                }
            } else {
                Found::Number(engine::copy_value(value))
            }
        },
        Kind::Text => match engine::as_text(value) {
            Some(s) => Found::Text(s),
            None => Found::Composite,
        },
        Kind::Bytes => match engine::as_bytes(value) {
            Some(b) => Found::Bytes(b),
            None => Found::Composite,
        },
        _ => Found::Composite,
    }
}

/// The template value of what was found: see `scalar_model`.
pub fn scalar_of(found: Found) -> (r: Option<TemplateValue>)
    ensures
        match scalar_model(found) {
            Some(m) => r matches Some(v) && v@ == m,
            None => r is None,
        },
{
    match found {
        Found::Undefined => Some(TemplateValue::Undefined),
        Found::Null => Some(TemplateValue::Null),
        Found::Bool(b) => Some(TemplateValue::Bool(b)),
        Found::Signed(n) => Some(narrow(n)),
        Found::Unsigned(n) => Some(TemplateValue::U128(n)),
        Found::Number(number) => match Real::new(number) {
            Some(x) => Some(TemplateValue::F64(x)),
            None => None,
        },
        Found::Text(s) => Some(TemplateValue::Str(s)),
        Found::Bytes(b) => Some(TemplateValue::Bytes(b)),
        Found::Composite => None,
    }
}

/// Reads a scalar out of an engine value: see `found_model`. A sequence, a
/// mapping or any other object gives `None`.
pub fn from_engine(value: &Value) -> (r: Option<TemplateValue>)
    ensures
        match found_model(*value) {
            Some(m) => r matches Some(v) && v@ == m,
            None => r is None,
        },
{
    scalar_of(inspect(value))
}

/// Reads the arguments of a call out of the engine's values, in order. They
/// are all read where a scalar is read out of each; otherwise the first
/// that is no scalar is a `Marshal` error.
pub fn arguments_from_engine(args: &Vec<Value>) -> (r: Result<Vec<TemplateValue>, RenderError>)
    ensures
        match r {
            Ok(out) => all_found(args@) && out.len() == args.len() && all_marshal(
                template_models(out@),
            ) && forall|i: int|
                0 <= i < args.len() ==> found_model(args[i]) == Some(#[trigger] out[i]@),
            Err(e) => !all_found(args@) && e.kind == ErrorKind::Marshal && e.message@
                == no_scalar_message(),
        },
{
    let mut out: Vec<TemplateValue> = Vec::new();
    let mut i: usize = 0;
    while i < args.len()
        invariant
            i <= args.len(),
            out.len() == i,
            forall|j: int| 0 <= j < i ==> found_model(args[j]) == Some(#[trigger] out[j]@),
        decreases args.len() - i,
    {
        match from_engine(&args[i]) {
            Some(value) => {
                out.push(value);
            },
            None => {
                assert(found_model(args@[i as int]) is None);
                return Err(
                    RenderError::with_detail(
                        ErrorKind::Marshal,
                        "a helper takes scalar arguments only, not ",
                        "an object",
                    ),
                );
            },
        }
        i += 1;
    }
    assert forall|j: int| 0 <= j < args@.len() implies found_model(#[trigger] args@[j]) is Some by {
        assert(found_model(args[j]) == Some(out[j]@));
    }
    assert forall|j: int| 0 <= j < template_models(out@).len() implies marshal(
        #[trigger] template_models(out@)[j],
    ) is Some by {
        assert(found_model(args[j]) == Some(out[j]@));
        lemma_found_marshals(args[j]);
    }
    Ok(out)
}

/// Hands the outcome of a call back to the engine: a value as its engine
/// value, a failure as an engine error that carries the failure's message
/// and nothing else of it.
pub fn answer(outcome: Result<TemplateValue, RenderError>) -> (r: Result<Value, Error>)
    ensures
        match outcome {
            Ok(t) => r is Ok && (engine_of(t@) matches Some(v) ==> r == Ok::<Value, Error>(v)),
            Err(e) => r == Err::<Value, Error>(engine_failure(e.message@)),
        },
        match r {
            Ok(v) => outcome matches Ok(t) && (is_converted(t@) ==> is_structured(v)),
            Err(e) => is_failure(e),
        },
{
    match outcome {
        Ok(value) => {
            proof {
                if is_converted(value@) {
                    let m = choose|m: ValueModel| value@ == convert(m);
                    lemma_converted_has_engine_value(m);
                    assert(engine_of(value@)->0 == engine_of_value(m));
                }
            }
            Ok(to_engine(&value))
        },
        Err(e) => {
            let ghost message = e.message@;
            let error = engine::new_error(e.message);
            assert(error == engine_failure(message));
            Err(error)
        },
    }
}

/// What the engine runs for a call of a helper registered as a function:
/// the arguments are read, the helper is called, and what it returns is
/// handed back as `answer` says. An argument that no scalar is read out of
/// fails the call before the host is touched. Whatever the host gives, the
/// result is the engine's value of a structured value, or an engine error
/// that carries a failure's message.
pub fn call_from_engine(helper: &Helper, args: Vec<Value>) -> (r: Result<Value, Error>)
    ensures
        !all_found(args@) ==> r == Err::<Value, Error>(engine_failure(no_scalar_message())),
        match r {
            Ok(v) => is_structured(v),
            Err(e) => is_failure(e),
        },
{
    match arguments_from_engine(&args) {
        Ok(inputs) => match helper.call(&inputs) {
            Ok(value) => answer(Ok(value.to_template())),
            Err(e) => answer(Err(e)),
        },
        Err(e) => answer(Err(e)),
    }
}

/// What the engine runs for a call of a method on a document: the arguments
/// are read, `call_method` is run, and what it returns is handed back as
/// `answer` says. An argument that no scalar is read out of fails the call
/// before the host is touched. Whatever the host gives, the result is the
/// engine's value of a structured value, or an engine error that carries a
/// failure's message.
pub fn method_from_engine(document: &Arc<Document>, name: &String, args: Vec<Value>) -> (r:
    Result<Value, Error>)
    ensures
        !all_found(args@) ==> r == Err::<Value, Error>(engine_failure(no_scalar_message())),
        match r {
            Ok(v) => is_structured(v),
            Err(e) => is_failure(e),
        },
{
    match arguments_from_engine(&args) {
        Ok(inputs) => answer(document.call_method(name.as_str(), &inputs)),
        Err(e) => answer(Err(e)),
    }
}

/// The key under which an object is asked for the method `name`: the bytes
/// of the name. A template can write a name as a string and never as
/// bytes, so a method can be asked for by the engine's method call alone.
pub open spec fn method_key(name: &str) -> Value {
    engine_bytes(name.spec_bytes())
}

/// The method in what a value answered under a method key: the answer
/// itself, unless there was none or it is the undefined value.
pub fn method_of(item: Option<Value>) -> (r: Option<Value>)
    ensures
        r == (match item {
            Some(callable) => if value_kind(callable) == Kind::Undefined {
                None
            } else {
                Some(callable)
            },
            None => None,
        }),
{
    match item {
        Some(callable) => {
            if engine::kind(&callable) == Kind::Undefined {
                None
            } else {
                Some(callable)
            }
        },
        None => None,
    }
}

/// What the engine runs for a method that a value does not know: the value
/// is asked for the item under `method_key`, and where `method_of` finds a
/// method in the answer, that is called with the arguments. Where it finds
/// none, the engine is told that the method is not known. What the value
/// answers and what the call gives are the engine's to decide.
pub fn method_on(state: &mut State<'_, '_>, value: &Value, method: &str, args: Vec<Value>) -> (r:
    Result<Value, Error>) {
    let key = engine::bytes_value(method.as_bytes_vec());
    match method_of(engine::item_of(value, &key)) {
        Some(callable) => engine::call_value(state, &callable, args),
        None => Err(engine::unknown_method()),
    }
}

/// The engine's strings of the names of the entries, in order.
pub open spec fn key_values(entries: DictModel) -> Seq<Value> {
    Seq::new(entries.len(), |i: int| engine_text(entries[i].0))
}

/// The name that a key asks for: the text of a key that is read as a
/// string.
pub open spec fn key_name(key: Value) -> Option<Seq<char>> {
    match found_model(key) {
        Some(TemplateModel::Str(s)) => Some(s),
        _ => None,
    }
}

/// The method that a key asks for: the text that the bytes of a key encode,
/// where the key is read as bytes.
pub open spec fn key_method(key: Value) -> Option<Seq<char>> {
    match found_model(key) {
        Some(TemplateModel::Bytes(b)) => if valid_utf8(b) {
            Some(decode_utf8(b))
        } else {
            None
        },
        _ => None,
    }
}

/// The member of a mapping under a name: the engine's value of what the
/// name maps to.
pub open spec fn dict_member_named(entries: DictModel, name: Seq<char>) -> Option<Value> {
    match lookup(entries, name) {
        Some(m) => Some(engine_of_value(m)),
        None => None,
    }
}

/// The member of a mapping under a key.
pub open spec fn dict_member_keyed(entries: DictModel, key: Value) -> Option<Value> {
    match key_name(key) {
        Some(name) => dict_member_named(entries, name),
        None => None,
    }
}

/// The member of a document under a name: the engine's value of the field
/// of that name, and none where there is no such field, whatever helpers
/// are bound.
pub open spec fn document_member_named(document: DocumentModel, name: Seq<char>) -> Option<
    Value,
> {
    match lookup(document.fields, name) {
        Some(m) => Some(engine_of_value(m)),
        None => None,
    }
}

/// The method of a document under a name: the callable of the helper bound
/// to that name, whatever the fields hold.
pub open spec fn document_method_named(document: DocumentModel, name: Seq<char>) -> Option<
    Value,
> {
    if is_method(document, name) {
        Some(engine_method(document, name))
    } else {
        None
    }
}

/// What a document answers under a key: under a name its field, under a
/// method key its method, under any other key nothing.
pub open spec fn document_member_keyed(document: DocumentModel, key: Value) -> Option<Value> {
    match key_name(key) {
        Some(name) => document_member_named(document, name),
        None => match key_method(key) {
            Some(name) => document_method_named(document, name),
            None => None,
        },
    }
}

/// The engine's strings of the names of a mapping's entries, in order.
fn names_of(dict: &Dict) -> (r: Vec<Value>)
    ensures
        r@ == key_values(dict@),
{
    let mut keys: Vec<Value> = Vec::new();
    let mut i: usize = 0;
    while i < dict.len()
        invariant
            i <= dict@.len(),
            keys.len() == i,
            forall|j: int| 0 <= j < i ==> keys[j] == engine_text(dict@[j].0),
        decreases dict@.len() - i,
    {
        keys.push(engine::text_value(dict.key_at(i).as_str()));
        i += 1;
    }
    assert(keys@ =~= key_values(dict@));
    keys
}

/// The engine's value of the entry of a mapping under `name`.
fn entry_value(dict: &Dict, name: &str) -> (r: Option<Value>)
    ensures
        r == dict_member_named(dict@, name@),
{
    match dict.get(name) {
        Some(value) => {
            proof {
                lemma_converted_has_engine_value(value@);
            }
            Some(to_engine(&value.to_template()))
        },
        None => None,
    }
}

/// The keys of a mapping, for the engine to walk: the names of its entries,
/// in order.
pub fn dict_keys(dict: &Arc<Dict>) -> (r: Vec<Value>)
    ensures
        r@ == key_values(dict@),
{
    names_of(dict)
}

/// The member of a mapping under `name`: see `dict_member_named`.
pub fn dict_value(dict: &Arc<Dict>, name: &str) -> (r: Option<Value>)
    ensures
        r == dict_member_named(dict@, name@),
{
    entry_value(dict, name)
}

/// The member of a mapping under a key that the engine asks for: the value
/// that the key maps to, converted. A key that is no text, or that the
/// mapping does not hold, has no member.
pub fn dict_member(dict: &Arc<Dict>, key: &Value) -> (r: Option<Value>)
    ensures
        r == dict_member_keyed(dict@, *key),
{
    match from_engine(key) {
        Some(TemplateValue::Str(name)) => dict_value(dict, name.as_str()),
        _ => None,
    }
}

/// The keys of a document, for the engine to walk: the names of its fields,
/// in order.
pub fn document_keys(document: &Arc<Document>) -> (r: Vec<Value>)
    ensures
        r@ == key_values(document@.fields),
{
    names_of(document.fields())
}

/// The member of a document under `name`: see `document_member_named`.
pub fn document_value_named(document: &Arc<Document>, name: &str) -> (r: Option<Value>)
    ensures
        r == document_member_named(document@, name@),
{
    entry_value(document.fields(), name)
}

/// The method of a document under `name`: see `document_method_named`.
pub fn document_method(document: &Arc<Document>, name: String) -> (r: Option<Value>)
    ensures
        r == document_method_named(document@, name@),
{
    if document.has_method(name.as_str()) {
        Some(engine::method_value(share(document), name))
    } else {
        None
    }
}

/// What a document answers under a key that the engine asks for: see
/// `document_member_keyed`. A name gives the field of that name and nothing
/// else, so that reading an attribute never shows a helper. A method key,
/// which only `method_on` makes, gives the callable that runs `call_method`.
pub fn document_member(document: &Arc<Document>, key: &Value) -> (r: Option<Value>)
    ensures
        r == document_member_keyed(document@, *key),
{
    match from_engine(key) {
        Some(TemplateValue::Str(name)) => document_value_named(document, name.as_str()),
        Some(TemplateValue::Bytes(bytes)) => match text_of_utf8(bytes) {
            Some(name) => document_method(document, name),
            None => None,
        },
        _ => None,
    }
}

/// The text that the string-forcing filter puts the marker in front of, for
/// a scalar: the string itself for a string, the decimal text for an
/// integer, and for any other scalar the text that the engine prints for
/// it.
pub open spec fn forced_text(v: Value) -> Seq<char> {
    match found_model(v) {
        Some(TemplateModel::Str(s)) => s,
        Some(m) => match integer_of(m) {
            Some(n) => decimal_text(n),
            None => value_shown(v),
        },
        None => value_shown(v),
    }
}

/// What the engine runs for the string-forcing filter: the value's text
/// with the force-string marker in front. For a scalar the text is
/// `forced_text`. An object prints what it holds at the time, so of that
/// only the marker in front is promised.
pub fn force_string(value: &Value) -> (r: String)
    ensures
        exists|text: Seq<char>| r@ == #[trigger] forced(text),
        is_scalar(value_kind(*value)) ==> r@ == forced(forced_text(*value)),
{
    let known = match from_engine(value) {
        Some(scalar) => force_scalar(&scalar),
        None => None,
    };
    match known {
        Some(text) => text,
        None => str_filter(engine::text_of(value)),
    }
}

} // verus!
