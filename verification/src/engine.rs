//! The template engine, behind trusted declarations.
//!
//! Everything here states what the engine does without proof; the rest of
//! the crate is verified against these statements. An environment is treated
//! as a collection: `env_templates` names the templates it holds,
//! `env_filters` the filters, and `env_functions` the helpers registered in
//! it as global functions.
//!
//! A value that the engine builds from plain values is the same value
//! whenever it is built from the same ones. Each such constructor has a
//! name here (`engine_bool`, `engine_text`, `engine_mapping`, ...), and the
//! wrapper that calls it says that its result is that name applied to its
//! arguments, and what the engine reads back out of it. What the engine
//! reads out of a value depends on the value alone, and each such reading
//! has a name too (`value_kind`, `value_as_text`, ...). The text that the
//! engine prints depends on the value alone only for a scalar; an object
//! prints what it holds at the time, so `value_shown` is stated of scalars
//! only. What an object answers under a key is the object's to decide and
//! has no name.

use crate::binding::{
    call_from_engine, dict_keys, dict_member, document_keys, document_member, force_string,
    method_from_engine, method_on,
};
use crate::helper::Helper;
use crate::value::{Dict, DictModel, Document, DocumentModel};
use minijinja::value::{Rest, ValueKind};
use minijinja::{Environment, Error, State, Value};
use std::sync::Arc;
use vstd::prelude::*;

verus! {

/// A value of the template engine. Opaque to the verifier.
#[verifier::external_type_specification]
#[verifier::external_body]
pub struct ExValue(Value);

/// An evaluation environment of the template engine: its templates,
/// filters and global functions. Opaque to the verifier.
#[verifier::external_type_specification]
#[verifier::external_body]
pub struct ExEnvironment<'source>(Environment<'source>);

/// An error of the template engine. Opaque to the verifier.
#[verifier::external_type_specification]
#[verifier::external_body]
pub struct ExError(Error);

/// The state of one evaluation, which the engine hands to what it calls.
/// Opaque to the verifier.
#[verifier::external_type_specification]
#[verifier::external_body]
pub struct ExState<'template, 'env>(State<'template, 'env>);

/// The names of the templates that the environment holds.
pub uninterp spec fn env_templates(env: Environment<'static>) -> Set<Seq<char>>;

/// The texts that the environment does not compile: for a template name and
/// a source, what the engine's error is about and the engine's message for
/// it.
pub uninterp spec fn env_rejects(env: Environment<'static>) -> Map<
    (Seq<char>, Seq<char>),
    (Fault, Seq<char>),
>;

/// Whether the environment hands a method that a value does not know to
/// `method_on`.
pub uninterp spec fn env_method_door(env: Environment<'static>) -> bool;

/// The names under which the environment holds a filter, the engine's
/// built-in filters included.
pub uninterp spec fn env_filters(env: Environment<'static>) -> Set<Seq<char>>;

/// The helpers registered in the environment as global functions, by the
/// name each was registered under.
pub uninterp spec fn env_functions(env: Environment<'static>) -> Map<Seq<char>, Helper>;

/// The engine's value of a boolean.
pub uninterp spec fn engine_bool(b: bool) -> Value;

/// The engine's value of a signed integer of 64 bits.
pub uninterp spec fn engine_i64(n: i64) -> Value;

/// The engine's value of an unsigned integer of 64 bits.
pub uninterp spec fn engine_u64(n: u64) -> Value;

/// The engine's value of a signed integer of 128 bits.
pub uninterp spec fn engine_i128(n: i128) -> Value;

/// The engine's value of an unsigned integer of 128 bits.
pub uninterp spec fn engine_u128(n: u128) -> Value;

/// The engine's string of one character.
pub uninterp spec fn engine_char(c: char) -> Value;

/// The engine's string of a text.
pub uninterp spec fn engine_text(s: Seq<char>) -> Value;

/// The engine's value of a sequence of bytes.
pub uninterp spec fn engine_bytes(b: Seq<u8>) -> Value;

/// The engine's sequence of the given values.
pub uninterp spec fn engine_list(items: Seq<Value>) -> Value;

/// The engine's object for a mapping with these entries: it asks
/// `dict_keys` and `dict_member` for them.
pub uninterp spec fn engine_mapping(entries: DictModel) -> Value;

/// The engine's object for this document: it asks `document_keys` for its
/// keys and `document_member` for what it holds under a key.
pub uninterp spec fn engine_document(document: DocumentModel) -> Value;

/// The engine's callable for this helper: it runs `call_from_engine`.
pub uninterp spec fn engine_function(helper: Helper) -> Value;

/// The engine's callable for the method `name` of this document: it runs
/// `method_from_engine`.
pub uninterp spec fn engine_method(document: DocumentModel, name: Seq<char>) -> Value;

/// The engine's error of the kind for an invalid operation, with `message`
/// as its detail.
pub uninterp spec fn engine_failure(message: Seq<char>) -> Error;

/// The engine's number that a text denotes, where the engine reads one in
/// it.
pub uninterp spec fn parsed_number(text: Seq<char>) -> Option<Value>;

/// What the engine takes the value to be.
pub uninterp spec fn value_kind(v: Value) -> Kind;

/// Whether the engine holds the value as an integer of any width.
pub uninterp spec fn value_is_integer(v: Value) -> bool;

/// The boolean that the engine converts the value to, where it does.
pub uninterp spec fn value_as_bool(v: Value) -> Option<bool>;

/// The signed integer of 128 bits that the engine converts the value to,
/// where it does.
pub uninterp spec fn value_as_signed(v: Value) -> Option<i128>;

/// The unsigned integer of 128 bits that the engine converts the value to,
/// where it does.
pub uninterp spec fn value_as_unsigned(v: Value) -> Option<u128>;

/// The text that the value holds, where the engine reads it as a string.
pub uninterp spec fn value_as_text(v: Value) -> Option<Seq<char>>;

/// The bytes that the value holds, where the engine reads bytes in it.
pub uninterp spec fn value_as_bytes(v: Value) -> Option<Seq<u8>>;

/// The text that the engine prints for a value that is a scalar.
pub uninterp spec fn value_shown(v: Value) -> Seq<char>;

/// What an engine error is about.
pub uninterp spec fn error_fault(e: Error) -> Fault;

/// The engine's message for an error.
pub uninterp spec fn error_message(e: Error) -> Seq<char>;

/// What the engine takes a value to be.
#[derive(Clone, Copy, Debug, PartialEq, Eq, Structural)]
pub enum Kind {
    Undefined,
    Null,
    Bool,
    Number,
    Text,
    Bytes,
    List,
    Mapping,
    Iterable,
    Plain,
    Invalid,
}

/// Whether a value of this kind is a scalar: undefined, none, a boolean, a
/// number, a text, or bytes.
pub open spec fn is_scalar(kind: Kind) -> bool {
    kind == Kind::Undefined || kind == Kind::Null || kind == Kind::Bool || kind == Kind::Number
        || kind == Kind::Text || kind == Kind::Bytes
}

/// What an engine error is about, as far as this crate tells errors apart.
#[derive(Clone, Copy, Debug, PartialEq, Eq, Structural)]
pub enum Fault {
    Syntax,
    UnknownFunction,
    UnknownMethod,
    Other,
}

/// `Environment::new`: an environment with the engine's built-in filters,
/// tests and globals, no template and no helper.
#[verifier::external_body]
pub(crate) fn new_environment() -> (env: Environment<'static>)
    ensures
        env_templates(env) == Set::<Seq<char>>::empty(),
        env_functions(env) == (Map::<Seq<char>, Helper>::empty()),
        !env_method_door(env),
{
    Environment::new()
}

/// `Environment::add_filter`: registers the string-forcing filter under
/// `name`. Templates and global functions stay as they are.
#[verifier::external_body]
pub(crate) fn add_force_filter(env: &mut Environment<'static>, name: &'static str)
    ensures
        env_templates(*final(env)) == env_templates(*old(env)),
        env_filters(*final(env)) == env_filters(*old(env)).insert(name@),
        env_functions(*final(env)) == env_functions(*old(env)),
        env_rejects(*final(env)) == env_rejects(*old(env)),
        env_method_door(*final(env)) == env_method_door(*old(env)),
{
    env.add_filter(name, |value: Value| force_string(&value));
}

/// `Environment::add_function`: registers the helper as a global function
/// under its name, in place of whatever that name was registered with.
/// Templates and filters stay as they are.
#[verifier::external_body]
pub(crate) fn add_function(env: &mut Environment<'static>, helper: Helper)
    ensures
        env_templates(*final(env)) == env_templates(*old(env)),
        env_filters(*final(env)) == env_filters(*old(env)),
        env_functions(*final(env)) == env_functions(*old(env)).insert(helper.name@, helper),
        env_rejects(*final(env)) == env_rejects(*old(env)),
        env_method_door(*final(env)) == env_method_door(*old(env)),
{
    let name = helper.name.clone();
    env.add_function(name, move |args: Rest<Value>| call_from_engine(&helper, args.0));
}

/// `Environment::add_template_owned`: compiles `source` and, where it
/// compiles, holds it under `name`. Where it does not compile the
/// environment is left as it was, and the error is the one that
/// `env_rejects` names for this name and source.
#[verifier::external_body]
pub(crate) fn add_template(env: &mut Environment<'static>, name: &str, source: &str) -> (r:
    Result<(), Error>)
    ensures
        r is Ok ==> env_templates(*final(env)) == env_templates(*old(env)).insert(name@),
        r is Err ==> env_templates(*final(env)) == env_templates(*old(env)),
        match r {
            Ok(_) => !env_rejects(*old(env)).contains_key((name@, source@)),
            Err(e) => env_rejects(*old(env)).contains_key((name@, source@)) && env_rejects(
                *old(env),
            )[(name@, source@)] == (error_fault(e), error_message(e)),
        },
        env_filters(*final(env)) == env_filters(*old(env)),
        env_functions(*final(env)) == env_functions(*old(env)),
        env_rejects(*final(env)) == env_rejects(*old(env)),
        env_method_door(*final(env)) == env_method_door(*old(env)),
{
    env.add_template_owned(name.to_string(), source.to_string())
}

/// `Environment::get_template`, then `Template::render`: evaluates the
/// template held under `name` against `root` and gives the text it writes.
#[verifier::external_body]
pub(crate) fn render_template(env: &Environment<'static>, name: &str, root: Value) -> (r: Result<
    String,
    Error,
>) {
    env.get_template(name)?.render(root)
}

/// `Environment::remove_template`: the environment no longer holds a
/// template under `name`. Filters and global functions stay as they are.
#[verifier::external_body]
pub(crate) fn remove_template(env: &mut Environment<'static>, name: &str)
    ensures
        env_templates(*final(env)) == env_templates(*old(env)).remove(name@),
        env_filters(*final(env)) == env_filters(*old(env)),
        env_functions(*final(env)) == env_functions(*old(env)),
        env_rejects(*final(env)) == env_rejects(*old(env)),
        env_method_door(*final(env)) == env_method_door(*old(env)),
{
    env.remove_template(name);
}

/// `Environment::set_unknown_method_callback`: from now on a method that a
/// value does not know is handed to `method_on`. Everything else stays as
/// it is.
#[verifier::external_body]
pub(crate) fn add_method_door(env: &mut Environment<'static>)
    ensures
        env_templates(*final(env)) == env_templates(*old(env)),
        env_filters(*final(env)) == env_filters(*old(env)),
        env_functions(*final(env)) == env_functions(*old(env)),
        env_rejects(*final(env)) == env_rejects(*old(env)),
        env_method_door(*final(env)),
{
    env.set_unknown_method_callback(
        |state, value, method, args| method_on(state, value, method, args.to_vec()),
    );
}

/// `Value::UNDEFINED`: the engine's undefined value, which is of the
/// undefined kind.
#[verifier::external_body]
pub(crate) fn undefined_value() -> (r: Value)
    ensures
        value_kind(r) == Kind::Undefined,
{
    Value::UNDEFINED
}

/// `Value::from` of `()`: the engine's none, which is of the none kind.
#[verifier::external_body]
pub(crate) fn null_value() -> (r: Value)
    ensures
        value_kind(r) == Kind::Null,
{
    Value::from(())
}

/// `Value::from` of a `bool`: the value that `engine_bool` names, which is
/// read back as that boolean.
#[verifier::external_body]
pub(crate) fn bool_value(b: bool) -> (r: Value)
    ensures
        r == engine_bool(b),
        value_kind(r) == Kind::Bool,
        value_as_bool(r) == Some(b),
{
    Value::from(b)
}

/// `Value::from` of an `i64`: the value that `engine_i64` names, which is
/// read back as that integer.
#[verifier::external_body]
pub(crate) fn i64_value(n: i64) -> (r: Value)
    ensures
        r == engine_i64(n),
        value_kind(r) == Kind::Number,
        value_is_integer(r),
        value_as_signed(r) == Some(n as i128),
{
    Value::from(n)
}

/// `Value::from` of a `u64`: the value that `engine_u64` names, which is
/// read back as that integer.
#[verifier::external_body]
pub(crate) fn u64_value(n: u64) -> (r: Value)
    ensures
        r == engine_u64(n),
        value_kind(r) == Kind::Number,
        value_is_integer(r),
        value_as_signed(r) == Some(n as i128),
{
    Value::from(n)
}

/// `Value::from` of an `i128`: the value that `engine_i128` names, which is
/// read back as that integer.
#[verifier::external_body]
pub(crate) fn i128_value(n: i128) -> (r: Value)
    ensures
        r == engine_i128(n),
        value_kind(r) == Kind::Number,
        value_is_integer(r),
        value_as_signed(r) == Some(n),
{
    Value::from(n)
}

/// `Value::from` of a `u128`: the value that `engine_u128` names, which is
/// read back as that integer, with a sign only where it fits one.
#[verifier::external_body]
pub(crate) fn u128_value(n: u128) -> (r: Value)
    ensures
        r == engine_u128(n),
        value_kind(r) == Kind::Number,
        value_is_integer(r),
        value_as_signed(r) == (if n <= i128::MAX as u128 {
            Some(n as i128)
        } else {
            None
        }),
        value_as_unsigned(r) == Some(n),
{
    Value::from(n)
}

/// `Value::from` of a `char`: the engine's string of that one character,
/// which is what `engine_char` names and is read back as that text.
#[verifier::external_body]
pub(crate) fn char_value(c: char) -> (r: Value)
    ensures
        r == engine_char(c),
        value_kind(r) == Kind::Text,
        value_as_text(r) == Some(seq![c]),
{
    Value::from(c)
}

/// `Value::from` of a `&str`: the value that `engine_text` names, which is
/// read back as that text.
#[verifier::external_body]
pub(crate) fn text_value(s: &str) -> (r: Value)
    ensures
        r == engine_text(s@),
        value_kind(r) == Kind::Text,
        value_as_text(r) == Some(s@),
{
    Value::from(s)
}

/// `Value::from_bytes`: the value that `engine_bytes` names, which is read
/// back as those bytes.
#[verifier::external_body]
pub(crate) fn bytes_value(b: Vec<u8>) -> (r: Value)
    ensures
        r == engine_bytes(b@),
        value_kind(r) == Kind::Bytes,
        value_as_bytes(r) == Some(b@),
{
    Value::from_bytes(b)
}

/// `Value::from` of a `Vec` of values: the engine's sequence of them, which
/// is what `engine_list` names.
#[verifier::external_body]
pub(crate) fn list_value(items: Vec<Value>) -> (r: Value)
    ensures
        r == engine_list(items@),
        value_kind(r) == Kind::List,
{
    Value::from(items)
}

/// `Value::make_object_map`: an object that asks `dict_keys` for its keys
/// and `dict_member` for the value under a key, each time the engine wants
/// one. It is what `engine_mapping` names for the mapping's entries.
#[verifier::external_body]
pub(crate) fn mapping_value(dict: Arc<Dict>) -> (r: Value)
    ensures
        r == engine_mapping(dict@),
        value_kind(r) == Kind::Mapping,
{
    Value::make_object_map(dict, |d| Box::new(dict_keys(d).into_iter()), |d, key| dict_member(d, key))
}

/// `Value::make_object_map`: an object that asks `document_keys` for its
/// keys and `document_member` for the value under a key, each time the
/// engine wants one. It is what `engine_document` names for the document.
#[verifier::external_body]
pub(crate) fn document_value(document: Arc<Document>) -> (r: Value)
    ensures
        r == engine_document(document@),
        value_kind(r) == Kind::Mapping,
{
    Value::make_object_map(
        document,
        |d| Box::new(document_keys(d).into_iter()),
        |d, key| document_member(d, key),
    )
}

/// `Value::from_function`: a callable that hands its arguments to
/// `call_from_engine` with this helper. It is what `engine_function` names
/// for the helper.
#[verifier::external_body]
pub(crate) fn function_value(helper: Helper) -> (r: Value)
    ensures
        r == engine_function(helper),
{
    Value::from_function(move |args: Rest<Value>| call_from_engine(&helper, args.0))
}

/// `Value::from_function`: a callable that hands its arguments to
/// `method_from_engine` with this document and method name. It is what
/// `engine_method` names for the two.
#[verifier::external_body]
pub(crate) fn method_value(document: Arc<Document>, name: String) -> (r: Value)
    ensures
        r == engine_method(document@, name@),
{
    Value::from_function(move |args: Rest<Value>| method_from_engine(&document, &name, args.0))
}

/// `Value::clone`: a second handle to the same engine value.
#[verifier::external_body]
pub(crate) fn copy_value(v: &Value) -> (r: Value)
    ensures
        r == *v,
{
    v.clone()
}

/// `Value::get_item`: what the value answers under `key` at this time;
/// `None` where asking fails.
#[verifier::external_body]
pub(crate) fn item_of(v: &Value, key: &Value) -> (r: Option<Value>) {
    v.get_item(key).ok()
}

/// `Value::call`: calls the value with the arguments, in the given state.
#[verifier::external_body]
pub(crate) fn call_value(state: &mut State<'_, '_>, callable: &Value, args: Vec<Value>) -> (r:
    Result<Value, Error>) {
    callable.call(state, &args)
}

/// `Error::from` of the kind `UnknownMethod`: the error that tells the
/// engine that the method is not known here.
#[verifier::external_body]
pub(crate) fn unknown_method() -> (r: Error)
    ensures
        error_fault(r) == Fault::UnknownMethod,
{
    Error::from(minijinja::ErrorKind::UnknownMethod)
}

/// `Value::kind`, one variant for one: what `value_kind` names.
#[verifier::external_body]
pub(crate) fn kind(v: &Value) -> (r: Kind)
    ensures
        r == value_kind(*v),
{
    match v.kind() {
        ValueKind::Undefined => Kind::Undefined,
        ValueKind::None => Kind::Null,
        ValueKind::Bool => Kind::Bool,
        ValueKind::Number => Kind::Number,
        ValueKind::String => Kind::Text,
        ValueKind::Bytes => Kind::Bytes,
        ValueKind::Seq => Kind::List,
        ValueKind::Map => Kind::Mapping,
        ValueKind::Iterable => Kind::Iterable,
        ValueKind::Plain => Kind::Plain,
        _ => Kind::Invalid,
    }
}

/// `Value::is_integer`: whether the engine holds the value as an integer of
/// any width, which is what `value_is_integer` names.
#[verifier::external_body]
pub(crate) fn is_integer(v: &Value) -> (r: bool)
    ensures
        r == value_is_integer(*v),
{
    v.is_integer()
}

/// `bool::try_from` of a value: what `value_as_bool` names.
#[verifier::external_body]
pub(crate) fn as_bool(v: &Value) -> (r: Option<bool>)
    ensures
        r == value_as_bool(*v),
{
    bool::try_from(v.clone()).ok()
}

/// `i128::try_from` of a value: what `value_as_signed` names.
#[verifier::external_body]
pub(crate) fn as_signed(v: &Value) -> (r: Option<i128>)
    ensures
        r == value_as_signed(*v),
{
    i128::try_from(v.clone()).ok()
}

/// `u128::try_from` of a value: what `value_as_unsigned` names.
#[verifier::external_body]
pub(crate) fn as_unsigned(v: &Value) -> (r: Option<u128>)
    ensures
        r == value_as_unsigned(*v),
{
    u128::try_from(v.clone()).ok()
}

/// `Value::as_str`: the text of a string value, which is what
/// `value_as_text` names.
#[verifier::external_body]
pub(crate) fn as_text(v: &Value) -> (r: Option<String>)
    ensures
        match r {
            Some(s) => value_as_text(*v) == Some(s@),
            None => value_as_text(*v) is None,
        },
{
    v.as_str().map(|s| s.to_string())
}

/// `Value::as_bytes`: the bytes of a bytes value, which is what
/// `value_as_bytes` names.
#[verifier::external_body]
pub(crate) fn as_bytes(v: &Value) -> (r: Option<Vec<u8>>)
    ensures
        match r {
            Some(b) => value_as_bytes(*v) == Some(b@),
            None => value_as_bytes(*v) is None,
        },
{
    v.as_bytes().map(|b| b.to_vec())
}

/// `State::apply_filter` with the engine's built-in filter `float`, on the
/// state of a fresh `Environment::new`: the engine's number that the text
/// denotes, as the engine itself reads it; `None` where it reads no number
/// in it. It is what `parsed_number` names.
#[verifier::external_body]
pub(crate) fn parse_number(text: &str) -> (r: Option<Value>)
    ensures
        r == parsed_number(text@),
{
    Environment::new().empty_state().apply_filter("float", &[Value::from(text)]).ok()
}

/// `Value::to_string`: the text that the engine prints for the value. For a
/// scalar it is what `value_shown` names; an object prints what it holds at
/// the time, and nothing is said of that.
#[verifier::external_body]
pub(crate) fn text_of(v: &Value) -> (r: String)
    ensures
        is_scalar(value_kind(*v)) ==> r@ == value_shown(*v),
{
    v.to_string()
}

/// `Error::new` with the kind `InvalidOperation` and `message` as detail:
/// the error that `engine_failure` names.
#[verifier::external_body]
pub(crate) fn new_error(message: String) -> (r: Error)
    ensures
        r == engine_failure(message@),
{
    Error::new(minijinja::ErrorKind::InvalidOperation, message)
}

/// `Error::kind`, told apart as far as `Fault` does: what `error_fault`
/// names.
#[verifier::external_body]
pub(crate) fn fault_of(e: &Error) -> (r: Fault)
    ensures
        r == error_fault(*e),
{
    match e.kind() {
        minijinja::ErrorKind::SyntaxError => Fault::Syntax,
        minijinja::ErrorKind::UnknownFunction => Fault::UnknownFunction,
        minijinja::ErrorKind::UnknownMethod => Fault::UnknownMethod,
        _ => Fault::Other,
    }
}

/// `Error::to_string`: the engine's message for the error, which is what
/// `error_message` names.
#[verifier::external_body]
pub(crate) fn message_of(e: &Error) -> (r: String)
    ensures
        r@ == error_message(*e),
{
    e.to_string()
}

} // verus!
