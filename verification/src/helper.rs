//! Host callables as template functions.
//!
//! A helper is called in three steps. The arguments, which the engine hands
//! over as template values, are marshalled into the inputs that a host
//! callable takes. The callable is invoked with them, in order. What it
//! returns is marshalled back into a structured value. A composite argument
//! (a list, a mapping, a document) is rejected: only scalars cross.

use crate::engine;
use crate::error::{ErrorKind, RenderError};
use crate::host;
use crate::value::{
    convert, distinct, distinct_keys, entry_keys, first_index, lemma_first_index, lemma_put_key,
    names_of, position_of, put, put_key, share, Dict, DictModel, Named, Real, StructuredValue,
    TemplateModel, TemplateValue, ValueModel,
};
use pyo3::{Py, PyAny};
use std::sync::Arc;
use vstd::prelude::*;
use vstd::string::*;

verus! {

/// How deep lists and mappings may nest in what a helper returns. The host
/// can build values that contain themselves; beyond this depth a result
/// cannot be represented.
pub const MAX_RESULT_DEPTH: usize = 64;

/// The attribute under which a host callable declares its name.
pub const NAME_ATTRIBUTE: &'static str = "__name__";

/// The message of the error for a callable that declares no name, with what
/// the host said instead.
pub open spec fn no_name_message(said: Seq<char>) -> Seq<char> {
    "a helper declares no name: "@ + said
}

/// A host callable under the name that templates call it by.
#[derive(Debug)]
pub struct Helper {
    pub name: String,
    pub callable: Arc<Py<PyAny>>,
}

impl Named for Helper {
    open spec fn name_model(&self) -> Seq<char> {
        self.name@
    }

    fn name_text(&self) -> (r: &String) {
        &self.name
    }
}

/// An input of a host callable.
#[derive(Debug)]
pub enum HostArg {
    /// The host's null object.
    Nothing,
    Bool(bool),
    Signed(i128),
    Unsigned(u128),
    Float(Real),
    Char(char),
    Text(String),
    Bytes(Vec<u8>),
}

/// The mathematical value of a `HostArg`.
pub enum HostArgModel {
    Nothing,
    Bool(bool),
    Signed(i128),
    Unsigned(u128),
    Float(Real),
    Char(char),
    Text(Seq<char>),
    Bytes(Seq<u8>),
}

impl View for HostArg {
    type V = HostArgModel;

    open spec fn view(&self) -> HostArgModel {
        match *self {
            HostArg::Nothing => HostArgModel::Nothing,
            HostArg::Bool(b) => HostArgModel::Bool(b),
            HostArg::Signed(n) => HostArgModel::Signed(n),
            HostArg::Unsigned(n) => HostArgModel::Unsigned(n),
            HostArg::Float(r) => HostArgModel::Float(r),
            HostArg::Char(c) => HostArgModel::Char(c),
            HostArg::Text(s) => HostArgModel::Text(s@),
            HostArg::Bytes(b) => HostArgModel::Bytes(b@),
        }
    }
}

/// The host input that a template value is marshalled into. An undefined and
/// a null value both become the host's null; integers of every width become
/// the host's integer; a composite value has no host input.
pub open spec fn marshal(v: TemplateModel) -> Option<HostArgModel> {
    match v {
        TemplateModel::Undefined => Some(HostArgModel::Nothing),
        TemplateModel::Null => Some(HostArgModel::Nothing),
        TemplateModel::Bool(b) => Some(HostArgModel::Bool(b)),
        TemplateModel::U64(n) => Some(HostArgModel::Unsigned(n as u128)),
        TemplateModel::U128(n) => Some(HostArgModel::Unsigned(n)),
        TemplateModel::I64(n) => Some(HostArgModel::Signed(n as i128)),
        TemplateModel::I128(n) => Some(HostArgModel::Signed(n)),
        TemplateModel::F64(r) => Some(HostArgModel::Float(r)),
        TemplateModel::Char(c) => Some(HostArgModel::Char(c)),
        TemplateModel::Str(s) => Some(HostArgModel::Text(s)),
        TemplateModel::Bytes(b) => Some(HostArgModel::Bytes(b)),
        TemplateModel::List(_) => None,
        TemplateModel::Mapping(_) => None,
        TemplateModel::Document(_) => None,
    }
}

/// Whether every one of `args` has a host input.
pub open spec fn all_marshal(args: Seq<TemplateModel>) -> bool {
    forall|i: int| 0 <= i < args.len() ==> marshal(#[trigger] args[i]).is_some()
}

/// The models of a vector of template values.
pub open spec fn template_models(args: Seq<TemplateValue>) -> Seq<TemplateModel> {
    Seq::new(args.len(), |i: int| args[i]@)
}

/// Marshals one argument: see `marshal`. A composite argument is rejected
/// with a `Marshal` error.
pub fn marshal_argument(value: &TemplateValue) -> (r: Result<HostArg, RenderError>)
    ensures
        match marshal(value@) {
            Some(m) => r matches Ok(arg) && arg@ == m,
            None => r matches Err(e) && e.kind == ErrorKind::Marshal,
        },
{
    match value {
        TemplateValue::Undefined => Ok(HostArg::Nothing),
        TemplateValue::Null => Ok(HostArg::Nothing),
        TemplateValue::Bool(b) => Ok(HostArg::Bool(*b)),
        TemplateValue::U64(n) => Ok(HostArg::Unsigned(*n as u128)),
        TemplateValue::U128(n) => Ok(HostArg::Unsigned(*n)),
        TemplateValue::I64(n) => Ok(HostArg::Signed(*n as i128)),
        TemplateValue::I128(n) => Ok(HostArg::Signed(*n)),
        TemplateValue::F64(x) => Ok(HostArg::Float(x.duplicate())),
        TemplateValue::Char(c) => Ok(HostArg::Char(*c)),
        TemplateValue::Str(s) => Ok(HostArg::Text(s.clone())),
        TemplateValue::Bytes(b) => {
            let copy = b.clone();
            assert(copy@ =~= b@);
            Ok(HostArg::Bytes(copy))
        },
        TemplateValue::List(_) => Err(
            RenderError::with_detail(
                ErrorKind::Marshal,
                "a helper takes scalar arguments only, not ",
                "a list",
            ),
        ),
        TemplateValue::Mapping(_) => Err(
            RenderError::with_detail(
                ErrorKind::Marshal,
                "a helper takes scalar arguments only, not ",
                "a mapping",
            ),
        ),
        TemplateValue::Document(_) => Err(
            RenderError::with_detail(
                ErrorKind::Marshal,
                "a helper takes scalar arguments only, not ",
                "a document",
            ),
        ),
    }
}

/// Marshals the arguments in order. They are all marshalled, or the first
/// composite one is rejected.
pub fn marshal_arguments(args: &Vec<TemplateValue>) -> (r: Result<Vec<HostArg>, RenderError>)
    ensures
        match r {
            Ok(out) => all_marshal(template_models(args@)) && out.len() == args.len()
                && forall|i: int|
                0 <= i < args.len() ==> marshal(args[i]@) == Some(#[trigger] out[i]@),
            Err(e) => !all_marshal(template_models(args@)) && e.kind == ErrorKind::Marshal,
        },
{
    let ghost models = template_models(args@);
    let mut out: Vec<HostArg> = Vec::new();
    let mut i: usize = 0;
    while i < args.len()
        invariant
            i <= args.len(),
            out.len() == i,
            models == template_models(args@),
            forall|j: int| 0 <= j < i ==> marshal(args[j]@) == Some(#[trigger] out[j]@),
        decreases args.len() - i,
    {
        match marshal_argument(&args[i]) {
            Ok(arg) => {
                out.push(arg);
            },
            Err(e) => {
                assert(marshal(models[i as int]).is_none());
                return Err(e);
            },
        }
        i += 1;
    }
    assert forall|j: int| 0 <= j < models.len() implies marshal(
        #[trigger] models[j],
    ).is_some() by {
        assert(marshal(args[j]@) == Some(out[j]@));
    }
    Ok(out)
}

/// Builds the host object for one input. A floating-point number is handed
/// over as the text that the engine prints for it, for the host to read.
/// `None` where the host cannot be reached.
fn host_object(arg: &HostArg) -> (r: Option<Py<PyAny>>) {
    match arg {
        HostArg::Nothing => host::null_object(),
        HostArg::Bool(b) => host::bool_object(*b),
        HostArg::Signed(n) => host::signed_object(*n),
        HostArg::Unsigned(n) => host::unsigned_object(*n),
        HostArg::Float(x) => host::number_object(engine::text_of(x.engine_value()).as_str()),
        HostArg::Char(c) => host::char_object(*c),
        HostArg::Text(s) => host::text_object(s.as_str()),
        HostArg::Bytes(b) => host::bytes_object(b),
    }
}

/// Builds the host objects for the inputs, in order.
fn host_objects(args: &Vec<HostArg>) -> (r: Option<Vec<Py<PyAny>>>)
    ensures
        r matches Some(objects) ==> objects.len() == args.len(),
{
    let mut objects: Vec<Py<PyAny>> = Vec::new();
    let mut i: usize = 0;
    while i < args.len()
        invariant
            i <= args.len(),
            objects.len() == i,
        decreases args.len() - i,
    {
        match host_object(&args[i]) {
            Some(object) => {
                objects.push(object);
            },
            None => {
                return None;
            },
        }
        i += 1;
    }
    Some(objects)
}

/// What one host object is, as far as looking at it from outside tells.
#[derive(Debug)]
pub enum Returned {
    /// A host dict, as its key and value objects.
    Entries(Vec<(Py<PyAny>, Py<PyAny>)>),
    Text(String),
    /// A host sequence that is no string, as its item objects.
    Items(Vec<Py<PyAny>>),
    Bool(bool),
    Int(i64),
    /// A host floating-point number, as the engine's value of it.
    Number(minijinja::Value),
    /// Anything else.
    Other,
}

/// The message of the error for a result that is no structured value.
pub open spec fn not_representable_message(what: Seq<char>) -> Seq<char> {
    "a helper returned "@ + what
}

/// The error for a result that is no structured value.
fn not_representable(what: &str) -> (e: RenderError)
    ensures
        e.kind == ErrorKind::Marshal,
        e.message@ == not_representable_message(what@),
{
    RenderError::with_detail(ErrorKind::Marshal, "a helper returned ", what)
}

/// What a host object is taken for, given what each of the six readings
/// gave: the first of them that gave something, in this order: a dict, a
/// string, any other sequence, a boolean, an integer that fits 64 bits, a
/// floating-point number. A string is a sequence to the host and a boolean
/// an integer, and each is taken for the narrower of the two.
pub open spec fn classified(
    entries: Option<Vec<(Py<PyAny>, Py<PyAny>)>>,
    text: Option<String>,
    items: Option<Vec<Py<PyAny>>>,
    flag: Option<bool>,
    integer: Option<i64>,
    number: Option<minijinja::Value>,
) -> Returned {
    if entries is Some {
        Returned::Entries(entries->0)
    } else if text is Some {
        Returned::Text(text->0)
    } else if items is Some {
        Returned::Items(items->0)
    } else if flag is Some {
        Returned::Bool(flag->0)
    } else if integer is Some {
        Returned::Int(integer->0)
    } else if number is Some {
        Returned::Number(number->0)
    } else {
        Returned::Other
    }
}

/// Takes a host object for what the six readings say it is: see
/// `classified`.
pub fn classify(
    entries: Option<Vec<(Py<PyAny>, Py<PyAny>)>>,
    text: Option<String>,
    items: Option<Vec<Py<PyAny>>>,
    flag: Option<bool>,
    integer: Option<i64>,
    number: Option<minijinja::Value>,
) -> (r: Returned)
    ensures
        r == classified(entries, text, items, flag, integer, number),
{
    if let Some(entries) = entries {
        Returned::Entries(entries)
    } else if let Some(text) = text {
        Returned::Text(text)
    } else if let Some(items) = items {
        Returned::Items(items)
    } else if let Some(b) = flag {
        Returned::Bool(b)
    } else if let Some(n) = integer {
        Returned::Int(n)
    } else if let Some(number) = number {
        Returned::Number(number)
    } else {
        Returned::Other
    }
}

/// Looks at what the host returned: makes the six readings of the object
/// and takes it for what `classify` says. A floating-point number is taken
/// over as the text that the host prints for it, for the engine to read.
fn inspect(object: &Py<PyAny>) -> (r: Returned) {
    let entries = host::dict_entries(object);
    let text = host::as_text(object);
    let items = host::sequence_items(object);
    let flag = host::as_bool(object);
    let integer = host::as_int(object);
    let number = match host::number_text(object) {
        Some(shown) => engine::parse_number(shown.as_str()),
        None => None,
    };
    classify(entries, text, items, flag, integer, number)
}

/// Whether lists and mappings nest no deeper than `depth` in the value: a
/// scalar does at any depth, a list or a mapping where there is a level to
/// go and each member nests within one level less.
pub open spec fn nests_within(m: ValueModel, depth: nat) -> bool
    decreases m, 0nat,
{
    match m {
        ValueModel::List(items) => depth > 0 && items_nest_within(
            items,
            items.len(),
            (depth - 1) as nat,
        ),
        ValueModel::Dict(entries) => depth > 0 && entries_nest_within(
            entries,
            entries.len(),
            (depth - 1) as nat,
        ),
        _ => true,
    }
}

/// Whether each of the first `n` items nests within `depth`.
pub open spec fn items_nest_within(items: Seq<ValueModel>, n: nat, depth: nat) -> bool
    decreases items, n,
{
    if n == 0 || n > items.len() {
        true
    } else {
        items_nest_within(items, (n - 1) as nat, depth) && nests_within(items[n - 1], depth)
    }
}

/// Whether the value of each of the first `n` entries nests within `depth`.
pub open spec fn entries_nest_within(entries: DictModel, n: nat, depth: nat) -> bool
    decreases entries, n,
{
    if n == 0 || n > entries.len() {
        true
    } else {
        entries_nest_within(entries, (n - 1) as nat, depth) && nests_within(
            entries[n - 1].1,
            depth,
        )
    }
}

/// Items that each nest within `depth` do so as the first `n` of them.
proof fn lemma_items_nest(items: Seq<ValueModel>, n: nat, depth: nat)
    requires
        n <= items.len(),
        forall|i: int| 0 <= i < n ==> nests_within(#[trigger] items[i], depth),
    ensures
        items_nest_within(items, n, depth),
    decreases n,
{
    if n > 0 {
        lemma_items_nest(items, (n - 1) as nat, depth);
    }
}

/// Entries whose values each nest within `depth` do so as the first `n` of
/// them.
proof fn lemma_entries_nest(entries: DictModel, n: nat, depth: nat)
    requires
        n <= entries.len(),
        forall|i: int| 0 <= i < n ==> nests_within((#[trigger] entries[i]).1, depth),
    ensures
        entries_nest_within(entries, n, depth),
    decreases n,
{
    if n > 0 {
        lemma_entries_nest(entries, (n - 1) as nat, depth);
    }
}

/// What the host returned, read into a plain tree: each member of a dict
/// or a sequence read in turn, down to the depth that the reading was given.
#[derive(Debug)]
pub enum HostTree {
    /// A host dict: for each entry the text of its key, where the key is
    /// text, and the tree of its value.
    Entries(Vec<(Option<String>, HostTree)>),
    Text(String),
    /// A host sequence that is no string: the trees of its items.
    Items(Vec<HostTree>),
    Bool(bool),
    Int(i64),
    /// A host floating-point number, as the engine's value of it.
    Number(minijinja::Value),
    /// Anything else.
    Other,
    /// A dict or a sequence below the depth that was read.
    TooDeep,
}

/// The mathematical value of a `HostTree`.
pub enum TreeModel {
    Entries(Seq<(Option<Seq<char>>, TreeModel)>),
    Text(Seq<char>),
    Items(Seq<TreeModel>),
    Bool(bool),
    Int(i64),
    Number(minijinja::Value),
    Other,
    TooDeep,
}

/// The model of a key as it was read.
pub open spec fn key_model(key: Option<String>) -> Option<Seq<char>> {
    match key {
        Some(s) => Some(s@),
        None => None,
    }
}

/// The model of a tree.
pub open spec fn tree_model(t: HostTree) -> TreeModel
    decreases t,
{
    match t {
        HostTree::Entries(entries) => TreeModel::Entries(
            Seq::new(
                entries.len() as nat,
                |i: int|
                    if 0 <= i < entries.len() {
                        (key_model(entries[i].0), tree_model(entries[i].1))
                    } else {
                        arbitrary()
                    },
            ),
        ),
        HostTree::Text(s) => TreeModel::Text(s@),
        HostTree::Items(items) => TreeModel::Items(
            Seq::new(
                items.len() as nat,
                |i: int| if 0 <= i < items.len() { tree_model(items[i]) } else { arbitrary() },
            ),
        ),
        HostTree::Bool(b) => TreeModel::Bool(b),
        HostTree::Int(n) => TreeModel::Int(n),
        HostTree::Number(v) => TreeModel::Number(v),
        HostTree::Other => TreeModel::Other,
        HostTree::TooDeep => TreeModel::TooDeep,
    }
}

impl View for HostTree {
    type V = TreeModel;

    open spec fn view(&self) -> TreeModel {
        tree_model(*self)
    }
}

/// The message for a result that nests too deeply.
pub open spec fn too_deep_message() -> Seq<char> {
    not_representable_message("a value that nests too deeply"@)
}

/// The message for a dict with a key that is no text.
pub open spec fn key_message() -> Seq<char> {
    not_representable_message("a mapping with a key that is no text"@)
}

/// The message for a number that the engine does not hold as one.
pub open spec fn number_message() -> Seq<char> {
    not_representable_message("a number that the engine cannot hold"@)
}

/// The message for a result that is no structured value.
pub open spec fn other_message() -> Seq<char> {
    not_representable_message("a value that is no structured value"@)
}

/// What a tree is marshalled into, with `depth` levels to go: the structured
/// value, or the message of the first thing in it that cannot be
/// represented. A scalar becomes the scalar of its kind. A sequence becomes
/// the list of what its items become, each at its place. A dict becomes the
/// mapping that maps each key, in turn, to what its value becomes.
pub open spec fn tree_result(t: TreeModel, depth: nat) -> Result<ValueModel, Seq<char>>
    decreases t, 0nat,
{
    match t {
        TreeModel::Text(s) => Ok(ValueModel::Text(s)),
        TreeModel::Bool(b) => Ok(ValueModel::Bool(b)),
        TreeModel::Int(n) => Ok(ValueModel::Int(n)),
        TreeModel::Number(v) => if Real::fits(v) {
            Ok(ValueModel::Float(Real::of(v)))
        } else {
            Err(number_message())
        },
        TreeModel::Other => Err(other_message()),
        TreeModel::TooDeep => Err(too_deep_message()),
        TreeModel::Items(items) => if depth == 0 {
            Err(too_deep_message())
        } else {
            match items_result(items, items.len(), (depth - 1) as nat) {
                Ok(values) => Ok(ValueModel::List(values)),
                Err(message) => Err(message),
            }
        },
        TreeModel::Entries(entries) => if depth == 0 {
            Err(too_deep_message())
        } else {
            match entries_result(entries, entries.len(), (depth - 1) as nat) {
                Ok(mapping) => Ok(ValueModel::Dict(mapping)),
                Err(message) => Err(message),
            }
        },
    }
}

/// What the first `n` items are marshalled into, in order.
pub open spec fn items_result(items: Seq<TreeModel>, n: nat, depth: nat) -> Result<
    Seq<ValueModel>,
    Seq<char>,
>
    decreases items, n,
{
    if n == 0 || n > items.len() {
        Ok(Seq::empty())
    } else {
        match items_result(items, (n - 1) as nat, depth) {
            Err(message) => Err(message),
            Ok(front) => match tree_result(items[n - 1], depth) {
                Ok(value) => Ok(front.push(value)),
                Err(message) => Err(message),
            },
        }
    }
}

/// What the first `n` entries are marshalled into: each key mapped, in
/// turn, to what its value becomes.
pub open spec fn entries_result(
    entries: Seq<(Option<Seq<char>>, TreeModel)>,
    n: nat,
    depth: nat,
) -> Result<DictModel, Seq<char>>
    decreases entries, n,
{
    if n == 0 || n > entries.len() {
        Ok(Seq::empty())
    } else {
        match entries_result(entries, (n - 1) as nat, depth) {
            Err(message) => Err(message),
            Ok(front) => match entries[n - 1].0 {
                None => Err(key_message()),
                Some(key) => match tree_result(entries[n - 1].1, depth) {
                    Ok(value) => Ok(put(front, key, value)),
                    Err(message) => Err(message),
                },
            },
        }
    }
}

/// Once one of the first items cannot be represented, going on changes
/// nothing.
proof fn lemma_items_rejected(items: Seq<TreeModel>, k: nat, n: nat, depth: nat)
    requires
        k <= n <= items.len(),
        items_result(items, k, depth) is Err,
    ensures
        items_result(items, n, depth) == items_result(items, k, depth),
    decreases n - k,
{
    if n > k {
        lemma_items_rejected(items, k, (n - 1) as nat, depth);
    }
}

/// Once one of the first entries cannot be represented, going on changes
/// nothing.
proof fn lemma_entries_rejected(
    entries: Seq<(Option<Seq<char>>, TreeModel)>,
    k: nat,
    n: nat,
    depth: nat,
)
    requires
        k <= n <= entries.len(),
        entries_result(entries, k, depth) is Err,
    ensures
        entries_result(entries, n, depth) == entries_result(entries, k, depth),
    decreases n - k,
{
    if n > k {
        lemma_entries_rejected(entries, k, (n - 1) as nat, depth);
    }
}

/// Whether dicts and sequences nest no deeper than `depth` in the tree.
pub open spec fn tree_within(t: TreeModel, depth: nat) -> bool
    decreases t, 0nat,
{
    match t {
        TreeModel::Items(items) => depth > 0 && items_within(
            items,
            items.len(),
            (depth - 1) as nat,
        ),
        TreeModel::Entries(entries) => depth > 0 && entries_within(
            entries,
            entries.len(),
            (depth - 1) as nat,
        ),
        _ => true,
    }
}

/// Whether each of the first `n` trees nests within `depth`.
pub open spec fn items_within(items: Seq<TreeModel>, n: nat, depth: nat) -> bool
    decreases items, n,
{
    if n == 0 || n > items.len() {
        true
    } else {
        items_within(items, (n - 1) as nat, depth) && tree_within(items[n - 1], depth)
    }
}

/// Whether the tree of each of the first `n` entries nests within `depth`.
pub open spec fn entries_within(
    entries: Seq<(Option<Seq<char>>, TreeModel)>,
    n: nat,
    depth: nat,
) -> bool
    decreases entries, n,
{
    if n == 0 || n > entries.len() {
        true
    } else {
        entries_within(entries, (n - 1) as nat, depth) && tree_within(entries[n - 1].1, depth)
    }
}

/// Trees that each nest within `depth` do so as the first `n` of them.
proof fn lemma_items_within(items: Seq<TreeModel>, n: nat, depth: nat)
    requires
        n <= items.len(),
        forall|i: int| 0 <= i < n ==> tree_within(#[trigger] items[i], depth),
    ensures
        items_within(items, n, depth),
    decreases n,
{
    if n > 0 {
        lemma_items_within(items, (n - 1) as nat, depth);
    }
}

/// Entries whose trees each nest within `depth` do so as the first `n` of
/// them.
proof fn lemma_entries_within(
    entries: Seq<(Option<Seq<char>>, TreeModel)>,
    n: nat,
    depth: nat,
)
    requires
        n <= entries.len(),
        forall|i: int| 0 <= i < n ==> tree_within((#[trigger] entries[i]).1, depth),
    ensures
        entries_within(entries, n, depth),
    decreases n,
{
    if n > 0 {
        lemma_entries_within(entries, (n - 1) as nat, depth);
    }
}

/// Reads what the host returned into a plain tree: the object is looked at
/// as `inspect` says, and each member of a dict or a sequence is read in
/// turn with one level less to go. Below `depth` nothing is read, so the
/// tree nests within `depth`.
pub fn read_host(object: &Py<PyAny>, depth: usize) -> (r: HostTree)
    ensures
        tree_within(r@, depth as nat),
    decreases depth,
{
    match inspect(object) {
        Returned::Entries(entries) => {
            if depth == 0 {
                return HostTree::TooDeep;
            }
            let mut out: Vec<(Option<String>, HostTree)> = Vec::new();
            let mut i: usize = 0;
            #[verifier::loop_isolation(false)]
            while i < entries.len()
                invariant
                    i <= entries.len(),
                    out.len() == i,
                    forall|j: int|
                        0 <= j < i ==> tree_within((#[trigger] out[j]).1@, (depth - 1) as nat),
                decreases entries.len() - i,
            {
                let key = host::as_text(&entries[i].0);
                let value = read_host(&entries[i].1, depth - 1);
                out.push((key, value));
                i += 1;
            }
            let r = HostTree::Entries(out);
            proof {
                let models = r@->Entries_0;
                assert forall|j: int| 0 <= j < models.len() implies tree_within(
                    (#[trigger] models[j]).1,
                    (depth - 1) as nat,
                ) by {
                    assert(models[j].1 == out[j].1@);
                }
                lemma_entries_within(models, models.len(), (depth - 1) as nat);
            }
            r
        },
        Returned::Text(text) => HostTree::Text(text),
        Returned::Items(items) => {
            if depth == 0 {
                return HostTree::TooDeep;
            }
            let mut out: Vec<HostTree> = Vec::new();
            let mut i: usize = 0;
            #[verifier::loop_isolation(false)]
            while i < items.len()
                invariant
                    i <= items.len(),
                    out.len() == i,
                    forall|j: int|
                        0 <= j < i ==> tree_within((#[trigger] out[j])@, (depth - 1) as nat),
                decreases items.len() - i,
            {
                let item = read_host(&items[i], depth - 1);
                out.push(item);
                i += 1;
            }
            let r = HostTree::Items(out);
            proof {
                let models = r@->Items_0;
                assert forall|j: int| 0 <= j < models.len() implies tree_within(
                    #[trigger] models[j],
                    (depth - 1) as nat,
                ) by {
                    assert(models[j] == out[j]@);
                }
                lemma_items_within(models, models.len(), (depth - 1) as nat);
            }
            r
        },
        Returned::Bool(b) => HostTree::Bool(b),
        Returned::Int(n) => HostTree::Int(n),
        Returned::Number(number) => HostTree::Number(number),
        Returned::Other => HostTree::Other,
    }
}

/// Marshals a tree into a structured value: see `tree_result`. Each item of
/// a sequence and each entry of a dict is marshalled at its place; the
/// first that cannot be represented is the `Marshal` error. A mapping that
/// is made has distinct names, and what is made nests within `depth`.
pub fn marshal_tree(tree: &HostTree, depth: usize) -> (r: Result<StructuredValue, RenderError>)
    ensures
        match tree_result(tree@, depth as nat) {
            Ok(m) => r matches Ok(v) && v@ == m,
            Err(message) => r matches Err(e) && e.kind == ErrorKind::Marshal && e.message@
                == message,
        },
        r matches Ok(v) ==> nests_within(v@, depth as nat),
        r matches Ok(v) ==> (v@ matches ValueModel::Dict(entries) ==> distinct_keys(entries)),
    decreases tree,
{
    match tree {
        HostTree::Entries(entries) => {
            if depth == 0 {
                return Err(not_representable("a value that nests too deeply"));
            }
            let ghost models = tree@->Entries_0;
            let ghost level = (depth - 1) as nat;
            let mut dict = Dict::new();
            let mut i: usize = 0;
            #[verifier::loop_isolation(false)]
            while i < entries.len()
                invariant
                    i <= entries.len(),
                    models.len() == entries.len(),
                    distinct_keys(dict@),
                    entries_result(models, i as nat, level) == Ok::<DictModel, Seq<char>>(dict@),
                    forall|j: int|
                        0 <= j < dict@.len() ==> nests_within((#[trigger] dict@[j]).1, level),
                decreases entries.len() - i,
            {
                assert(models[i as int] == (key_model(entries[i as int].0), entries[i as int].1@));
                let key = match &entries[i].0 {
                    Some(key) => key.clone(),
                    None => {
                        proof {
                            assert(entries_result(models, (i + 1) as nat, level) is Err);
                            lemma_entries_rejected(models, (i + 1) as nat, models.len(), level);
                        }
                        return Err(not_representable("a mapping with a key that is no text"));
                    },
                };
                let value = match marshal_tree(&entries[i].1, depth - 1) {
                    Ok(value) => value,
                    Err(e) => {
                        proof {
                            assert(entries_result(models, (i + 1) as nat, level) is Err);
                            lemma_entries_rejected(models, (i + 1) as nat, models.len(), level);
                        }
                        return Err(e);
                    },
                };
                let ghost before = dict@;
                let ghost added = (key@, value@);
                dict.insert(key, value);
                assert forall|j: int| 0 <= j < dict@.len() implies nests_within(
                    (#[trigger] dict@[j]).1,
                    level,
                ) by {
                    assert(dict@ == put(before, added.0, added.1));
                    match first_index(entry_keys(before), added.0) {
                        Some(at) => {
                            lemma_first_index(entry_keys(before), added.0);
                            if j != at {
                                assert(dict@[j] == before[j]);
                            }
                        },
                        None => {
                            if j < before.len() {
                                assert(dict@[j] == before[j]);
                            }
                        },
                    }
                }
                i += 1;
            }
            proof {
                lemma_entries_nest(dict@, dict@.len(), level);
            }
            Ok(StructuredValue::Dict(Arc::new(dict)))
        },
        HostTree::Text(text) => Ok(StructuredValue::YString(text.clone())),
        HostTree::Items(items) => {
            if depth == 0 {
                return Err(not_representable("a value that nests too deeply"));
            }
            let ghost models = tree@->Items_0;
            let ghost level = (depth - 1) as nat;
            let ghost mut made: Seq<ValueModel> = Seq::empty();
            let mut list: Vec<StructuredValue> = Vec::new();
            let mut i: usize = 0;
            #[verifier::loop_isolation(false)]
            while i < items.len()
                invariant
                    i <= items.len(),
                    models.len() == items.len(),
                    list.len() == i,
                    made.len() == i,
                    forall|j: int| 0 <= j < i ==> made[j] == (#[trigger] list[j])@,
                    items_result(models, i as nat, level) == Ok::<Seq<ValueModel>, Seq<char>>(
                        made,
                    ),
                    forall|j: int| 0 <= j < i ==> nests_within(#[trigger] made[j], level),
                decreases items.len() - i,
            {
                assert(models[i as int] == items[i as int]@);
                let value = match marshal_tree(&items[i], depth - 1) {
                    Ok(value) => value,
                    Err(e) => {
                        proof {
                            assert(items_result(models, (i + 1) as nat, level) is Err);
                            lemma_items_rejected(models, (i + 1) as nat, models.len(), level);
                        }
                        return Err(e);
                    },
                };
                proof {
                    made = made.push(value@);
                }
                list.push(value);
                i += 1;
            }
            let r = StructuredValue::List(list);
            proof {
                assert(r@->List_0 =~= made);
                lemma_items_nest(made, made.len(), level);
            }
            Ok(r)
        },
        HostTree::Bool(b) => Ok(StructuredValue::Bool(*b)),
        HostTree::Int(n) => Ok(StructuredValue::Int(*n)),
        HostTree::Number(number) => match Real::new(engine::copy_value(number)) {
            Some(x) => Ok(StructuredValue::Float(x)),
            None => Err(not_representable("a number that the engine cannot hold")),
        },
        HostTree::Other => Err(not_representable("a value that is no structured value")),
        HostTree::TooDeep => Err(not_representable("a value that nests too deeply")),
    }
}

/// Marshals what a helper returned into a structured value: the host object
/// is read into a plain tree, and the tree is marshalled as `tree_result`
/// says. Whatever the host returned, a failure is a `Marshal` error, and a
/// value that is marshalled nests within `depth`.
pub fn marshal_result(object: &Py<PyAny>, depth: usize) -> (r: Result<
    StructuredValue,
    RenderError,
>)
    ensures
        r matches Err(e) ==> e.kind == ErrorKind::Marshal,
        r matches Ok(v) ==> nests_within(v@, depth as nat),
{
    let tree = read_host(object, depth);
    marshal_tree(&tree, depth)
}

/// Decides what a call returns, given what came back from the host. A fault
/// on the host side becomes a `HostInvocation` error that carries the
/// fault's text and nothing else of it; a returned object is marshalled.
pub fn settle(outcome: Option<Result<Py<PyAny>, String>>) -> (r: Result<
    StructuredValue,
    RenderError,
>)
    ensures
        match outcome {
            None => r matches Err(e) && e.kind == ErrorKind::HostInvocation && e.message@
                == "Error in a function: "@ + "the host cannot be reached"@,
            Some(Err(fault)) => r matches Err(e) && e.kind == ErrorKind::HostInvocation
                && e.message@ == "Error in a function: "@ + fault@,
            Some(Ok(_)) => r matches Err(e) ==> e.kind == ErrorKind::Marshal,
        },
{
    match outcome {
        None => Err(
            RenderError::with_detail(
                ErrorKind::HostInvocation,
                "Error in a function: ",
                "the host cannot be reached",
            ),
        ),
        Some(Err(fault)) => Err(
            RenderError::with_detail(
                ErrorKind::HostInvocation,
                "Error in a function: ",
                fault.as_str(),
            ),
        ),
        Some(Ok(object)) => marshal_result(&object, MAX_RESULT_DEPTH),
    }
}

impl Helper {
    /// A helper that templates call as `name`.
    pub fn new(name: String, callable: Py<PyAny>) -> (h: Helper)
        ensures
            h.name == name,
            *h.callable == callable,
    {
        Helper { name, callable: Arc::new(callable) }
    }

    /// The helper for a callable, given what the host said of its name: the
    /// helper under that name where the host gave one, and otherwise a
    /// `Construction` error that carries what the host said instead. No name
    /// is ever made up.
    pub fn named(found: Result<String, String>, callable: Py<PyAny>) -> (r: Result<
        Helper,
        RenderError,
    >)
        ensures
            match found {
                Ok(name) => r matches Ok(h) && h.name == name && *h.callable == callable,
                Err(said) => r matches Err(e) && e.kind == ErrorKind::Construction && e.message@
                    == no_name_message(said@),
            },
    {
        match found {
            Ok(name) => Ok(Helper::new(name, callable)),
            Err(said) => Err(
                RenderError::with_detail(
                    ErrorKind::Construction,
                    "a helper declares no name: ",
                    said.as_str(),
                ),
            ),
        }
    }

    /// A helper under the name that the callable itself declares: the host
    /// is asked for the name, and `named` decides. A callable that declares
    /// no name is a `Construction` error.
    pub fn discover(callable: Py<PyAny>) -> (r: Result<Helper, RenderError>)
        ensures
            match r {
                Ok(h) => *h.callable == callable,
                Err(e) => e.kind == ErrorKind::Construction,
            },
    {
        match host::attribute_text(&callable, NAME_ATTRIBUTE) {
            Some(found) => Helper::named(found, callable),
            None => Helper::named(Err(String::from_str("the host cannot be reached")), callable),
        }
    }

    /// A second handle to the same helper.
    pub fn duplicate(&self) -> (r: Helper)
        ensures
            r == *self,
    {
        Helper { name: self.name.clone(), callable: share(&self.callable) }
    }

    /// Calls the helper with `args`, in order. A composite argument is
    /// rejected before the host is touched. Otherwise the host decides: see
    /// `settle` for what each outcome becomes.
    pub fn call(&self, args: &Vec<TemplateValue>) -> (r: Result<StructuredValue, RenderError>)
        ensures
            !all_marshal(template_models(args@)) ==> (r matches Err(e) && e.kind
                == ErrorKind::Marshal),
            r matches Err(e) ==> e.kind == ErrorKind::Marshal || e.kind
                == ErrorKind::HostInvocation,
    {
        let inputs = marshal_arguments(args)?;
        match host_objects(&inputs) {
            Some(objects) => settle(host::invoke(&self.callable, objects)),
            None => settle(None),
        }
    }
}

/// A string leaves the converter as the same string, and is handed to a
/// helper as the same text.
pub proof fn lemma_text_passes_unchanged(s: Seq<char>)
    ensures
        convert(ValueModel::Text(s)) == TemplateModel::Str(s),
        marshal(convert(ValueModel::Text(s))) == Some(HostArgModel::Text(s)),
{
}

/// Whether `helpers` are `callables` under some names: as many, in the same
/// order, each helper holding the callable at its place.
pub open spec fn name_callables(helpers: Seq<Helper>, callables: Seq<Py<PyAny>>) -> bool {
    helpers.len() == callables.len() && forall|i: int|
        0 <= i < helpers.len() ==> *(#[trigger] helpers[i]).callable == callables[i]
}

/// The names that the callables declare, each with its callable, in the
/// order given. One callable without a name fails them all.
pub fn discover_all(callables: Vec<Py<PyAny>>) -> (r: Result<Vec<Helper>, RenderError>)
    ensures
        callables@.len() == 0 ==> r is Ok,
        match r {
            Ok(helpers) => name_callables(helpers@, callables@),
            Err(e) => e.kind == ErrorKind::Construction,
        },
{
    let mut pending = callables;
    let mut found: Vec<Helper> = Vec::new();
    while pending.len() > 0
        invariant
            pending.len() + found.len() == callables.len(),
            pending@ == callables@.take(pending.len() as int),
            forall|j: int|
                0 <= j < found.len() ==> *(#[trigger] found[j]).callable == callables[
                    pending.len() + j],
        decreases pending.len(),
    {
        let ghost before = found@;
        let callable = pending.pop().unwrap();
        let helper = Helper::discover(callable)?;
        found.insert(0, helper);
        assert forall|j: int| 0 <= j < found.len() implies *(#[trigger] found[j]).callable
            == callables[pending.len() + j] by {
            if j > 0 {
                assert(found[j] == before[j - 1]);
            }
        }
    }
    Ok(found)
}

/// The names of the helpers, in order.
pub open spec fn helper_names(entries: Seq<Helper>) -> Seq<Seq<char>> {
    Seq::new(entries.len(), |i: int| entries[i].name@)
}

/// The helper that `name` is bound to: the first entry with that name.
pub open spec fn find_helper(entries: Seq<Helper>, name: Seq<char>) -> Option<Helper> {
    match first_index(helper_names(entries), name) {
        Some(i) => Some(entries[i]),
        None => None,
    }
}

/// `entries` with `helper` bound under its name: an entry of that name is
/// replaced where it stands, otherwise the helper is added at the end.
pub open spec fn bind_helper(entries: Seq<Helper>, helper: Helper) -> Seq<Helper> {
    match first_index(helper_names(entries), helper.name@) {
        Some(i) => entries.update(i, helper),
        None => entries.push(helper),
    }
}

/// `entries` with each of `helpers` bound in turn.
pub open spec fn bind_helpers(entries: Seq<Helper>, helpers: Seq<Helper>) -> Seq<Helper>
    decreases helpers.len(),
{
    if helpers.len() == 0 {
        entries
    } else {
        bind_helper(bind_helpers(entries, helpers.drop_last()), helpers.last())
    }
}

/// Whether no two entries share a name.
pub open spec fn distinct_names(entries: Seq<Helper>) -> bool {
    forall|i: int, j: int|
        0 <= i < j < entries.len() ==> entries[i].name@ != entries[j].name@
}

/// Helper bindings by name. Binding a name again replaces the earlier helper.
#[derive(Debug)]
pub struct HelperRegistry {
    entries: Vec<Helper>,
}

impl View for HelperRegistry {
    type V = Seq<Helper>;

    closed spec fn view(&self) -> Seq<Helper> {
        self.entries@
    }
}

impl HelperRegistry {
    /// No two bindings share a name.
    #[verifier::type_invariant]
    spec fn names_are_distinct(self) -> bool {
        distinct_names(self.entries@)
    }

    /// A registry with no bindings.
    pub fn new() -> (r: HelperRegistry)
        ensures
            r@ == Seq::<Helper>::empty(),
    {
        HelperRegistry { entries: Vec::new() }
    }

    /// No two bindings of a registry share a name, however it was made.
    pub fn names_distinct(&self)
        ensures
            distinct_names(self@),
    {
        proof {
            use_type_invariant(self);
        }
    }

    /// The number of bound names.
    pub fn len(&self) -> (n: usize)
        ensures
            n == self@.len(),
    {
        self.entries.len()
    }

    /// The index of the entry named `name`.
    fn position(&self, name: &str) -> (r: Option<usize>)
        ensures
            match r {
                Some(i) => i < self@.len() && first_index(helper_names(self@), name@) == Some(
                    i as int,
                ),
                None => first_index(helper_names(self@), name@).is_none(),
            },
    {
        assert(helper_names(self@) =~= names_of(self.entries@));
        position_of(&self.entries, name)
    }

    /// The helper bound to `name`.
    pub fn lookup(&self, name: &str) -> (r: Option<&Helper>)
        ensures
            match r {
                Some(h) => find_helper(self@, name@) == Some(*h),
                None => find_helper(self@, name@).is_none(),
            },
    {
        match self.position(name) {
            Some(i) => Some(&self.entries[i]),
            None => None,
        }
    }

    /// Binds `helper` under its name. A helper bound to that name before is
    /// replaced: the last one registered wins. Every other name stays bound
    /// as it was.
    pub fn register(&mut self, helper: Helper)
        ensures
            final(self)@ == bind_helper(old(self)@, helper),
            find_helper(final(self)@, helper.name@) == Some(helper),
            forall|other: Seq<char>|
                other != helper.name@ ==> find_helper(final(self)@, other) == find_helper(
                    old(self)@,
                    other,
                ),
            distinct_names(final(self)@),
    {
        proof {
            use_type_invariant(&*self);
            lemma_bind_helper(self@, helper);
        }
        let found = self.position(helper.name.as_str());
        let mut taken = HelperRegistry::new();
        core::mem::swap(self, &mut taken);
        let mut entries = taken.entries;
        match found {
            Some(i) => {
                entries.set(i, helper);
            },
            None => {
                entries.push(helper);
            },
        }
        *self = HelperRegistry { entries };
    }

    /// The registry that binds each of `helpers` in turn.
    pub fn from_helpers(helpers: &Vec<Helper>) -> (r: HelperRegistry)
        ensures
            r@ == bind_helpers(Seq::<Helper>::empty(), helpers@),
    {
        let mut registry = HelperRegistry::new();
        let mut i: usize = 0;
        while i < helpers.len()
            invariant
                i <= helpers.len(),
                registry@ == bind_helpers(Seq::<Helper>::empty(), helpers@.take(i as int)),
            decreases helpers.len() - i,
        {
            registry.register(helpers[i].duplicate());
            assert(helpers@.take(i + 1).drop_last() == helpers@.take(i as int));
            i += 1;
        }
        assert(helpers@.take(helpers.len() as int) == helpers@);
        registry
    }
}

/// After a helper is bound, its name resolves to it, every other name
/// resolves as before, and distinct names stay distinct.
pub proof fn lemma_bind_helper(entries: Seq<Helper>, helper: Helper)
    ensures
        find_helper(bind_helper(entries, helper), helper.name@) == Some(helper),
        forall|other: Seq<char>|
            other != helper.name@ ==> find_helper(bind_helper(entries, helper), other)
                == find_helper(entries, other),
        distinct_names(entries) ==> distinct_names(bind_helper(entries, helper)),
{
    let key = helper.name@;
    let after = bind_helper(entries, helper);
    let names = helper_names(entries);
    lemma_put_key(names, key);
    lemma_first_index(names, key);
    assert(helper_names(after) =~= put_key(names, key));
    assert forall|other: Seq<char>| other != key implies find_helper(after, other)
        == find_helper(entries, other) by {
        lemma_first_index(names, other);
    }
    if distinct_names(entries) {
        assert(distinct(names));
        assert forall|i: int, j: int| 0 <= i < j < after.len() implies after[i].name@
            != after[j].name@ by {
            assert(put_key(names, key)[i] == after[i].name@);
            assert(put_key(names, key)[j] == after[j].name@);
        }
    }
}

/// Of two helpers bound under one name, one after the other, the one bound
/// last is the one that the name resolves to.
pub proof fn lemma_last_bound_wins(entries: Seq<Helper>, first: Helper, second: Helper)
    requires
        first.name@ == second.name@,
    ensures
        find_helper(bind_helpers(entries, seq![first, second]), first.name@) == Some(second),
{
    let both = seq![first, second];
    assert(both.drop_last() =~= seq![first]);
    assert(seq![first].drop_last() =~= Seq::<Helper>::empty());
    assert(bind_helpers(entries, Seq::<Helper>::empty()) == entries);
    assert(bind_helpers(entries, seq![first]) == bind_helper(entries, first));
    assert(bind_helpers(entries, both) == bind_helper(bind_helper(entries, first), second));
    lemma_bind_helper(bind_helper(entries, first), second);
}

} // verus!
