//! The renderer: one evaluation environment, one document, one template
//! per call.
//!
//! A call of `render` on text that holds a template passes through four
//! stages. The helpers it was given are registered as global functions. The
//! text is compiled and held under one fixed template name. The template is
//! evaluated against the document. The compiled template is removed again,
//! whatever the evaluation gave. Between calls the environment holds no
//! template.

use crate::binding::to_engine;
use crate::engine;
use crate::engine::{
    engine_document, engine_function, env_filters, env_functions, env_method_door, env_rejects,
    env_templates, error_fault, error_message, Fault,
};
use crate::error::{ErrorKind, RenderError};
use crate::helper::{discover_all, name_callables, Helper};
use crate::text::{contains_template_start, has_template_start};
use crate::value::{share, Document, DocumentModel, TemplateValue};
use minijinja::{Environment, Error, Value};
use pyo3::{Py, PyAny};
use std::sync::Arc;
use vstd::prelude::*;

verus! {

/// The name under which templates call the string-forcing filter.
pub const STR_FILTER: &'static str = "str";

/// The one name under which a template is held while it is rendered.
pub const TPL_NAME: &'static str = "tpl";

/// The global functions after each of `helpers` is registered in turn under
/// its name. A name registered twice keeps the helper registered last.
pub open spec fn register_all(functions: Map<Seq<char>, Helper>, helpers: Seq<Helper>) -> Map<
    Seq<char>,
    Helper,
>
    decreases helpers.len(),
{
    if helpers.len() == 0 {
        functions
    } else {
        register_all(functions, helpers.drop_last()).insert(helpers.last().name@, helpers.last())
    }
}

/// The last of `helpers` that is named `name`.
pub open spec fn last_named(helpers: Seq<Helper>, name: Seq<char>) -> Option<Helper>
    decreases helpers.len(),
{
    if helpers.len() == 0 {
        None
    } else if helpers.last().name@ == name {
        Some(helpers.last())
    } else {
        last_named(helpers.drop_last(), name)
    }
}

/// The last helper registered under a name wins: after `helpers` are
/// registered, a name that one of them has is bound to the last of them that
/// has it, and any other name is bound as it was before.
pub proof fn lemma_last_registered_wins(
    functions: Map<Seq<char>, Helper>,
    helpers: Seq<Helper>,
    name: Seq<char>,
)
    ensures
        match last_named(helpers, name) {
            Some(helper) => register_all(functions, helpers).contains_key(name) && register_all(
                functions,
                helpers,
            )[name] == helper,
            None => register_all(functions, helpers).contains_key(name) == functions.contains_key(
                name,
            ) && (functions.contains_key(name) ==> register_all(functions, helpers)[name]
                == functions[name]),
        },
    decreases helpers.len(),
{
    if helpers.len() > 0 {
        lemma_last_registered_wins(functions, helpers.drop_last(), name);
    }
}

/// The kind of the error that a failure of the engine becomes. A template
/// that names a function or method that nothing is bound to is a
/// `MethodNotFound`; a template that does not parse is a `Compile` error;
/// every other failure, that of a helper included, is an `Evaluation` error.
pub open spec fn kind_of_fault(fault: Fault) -> ErrorKind {
    match fault {
        Fault::Syntax => ErrorKind::Compile,
        Fault::UnknownFunction => ErrorKind::MethodNotFound,
        Fault::UnknownMethod => ErrorKind::MethodNotFound,
        Fault::Other => ErrorKind::Evaluation,
    }
}

/// The error for an engine failure of the given sort and message.
pub fn failure(fault: Fault, message: String) -> (e: RenderError)
    ensures
        e.kind == kind_of_fault(fault),
        e.message == message,
{
    let kind = match fault {
        Fault::Syntax => ErrorKind::Compile,
        Fault::UnknownFunction => ErrorKind::MethodNotFound,
        Fault::UnknownMethod => ErrorKind::MethodNotFound,
        Fault::Other => ErrorKind::Evaluation,
    };
    RenderError { kind, message }
}

/// The uniform error for an error of the engine: its kind by what the
/// engine's error is about, its message the engine's.
fn failure_of(e: &Error) -> (r: RenderError)
    ensures
        r.kind == kind_of_fault(error_fault(*e)),
        r.message@ == error_message(*e),
{
    failure(engine::fault_of(e), engine::message_of(e))
}

/// Registers each helper in turn as a global function under its name.
fn register(env: &mut Environment<'static>, helpers: &Vec<Helper>)
    ensures
        env_templates(*final(env)) == env_templates(*old(env)),
        env_filters(*final(env)) == env_filters(*old(env)),
        env_rejects(*final(env)) == env_rejects(*old(env)),
        env_method_door(*final(env)) == env_method_door(*old(env)),
        env_functions(*final(env)) == register_all(env_functions(*old(env)), helpers@),
{
    let mut i: usize = 0;
    while i < helpers.len()
        invariant
            i <= helpers.len(),
            env_templates(*env) == env_templates(*old(env)),
            env_filters(*env) == env_filters(*old(env)),
            env_rejects(*env) == env_rejects(*old(env)),
            env_method_door(*env) == env_method_door(*old(env)),
            env_functions(*env) == register_all(
                env_functions(*old(env)),
                helpers@.take(i as int),
            ),
        decreases helpers.len() - i,
    {
        engine::add_function(env, helpers[i].duplicate());
        assert(helpers@.take(i + 1).drop_last() == helpers@.take(i as int));
        i += 1;
    }
    assert(helpers@.take(helpers.len() as int) == helpers@);
}

/// Compiles `input`, evaluates it against `root`, and removes the compiled
/// template again on every path.
fn evaluate(env: &mut Environment<'static>, input: &str, root: Value) -> (r: Result<
    String,
    RenderError,
>)
    ensures
        env_templates(*final(env)) == env_templates(*old(env)).remove(TPL_NAME@),
        env_filters(*final(env)) == env_filters(*old(env)),
        env_functions(*final(env)) == env_functions(*old(env)),
        env_rejects(*final(env)) == env_rejects(*old(env)),
        env_method_door(*final(env)) == env_method_door(*old(env)),
        env_rejects(*old(env)).contains_key((TPL_NAME@, input@)) ==> (r matches Err(e) && e.kind
            == kind_of_fault(env_rejects(*old(env))[(TPL_NAME@, input@)].0) && e.message@
            == env_rejects(*old(env))[(TPL_NAME@, input@)].1),
        r matches Err(e) ==> e.kind == ErrorKind::Compile || e.kind == ErrorKind::MethodNotFound
            || e.kind == ErrorKind::Evaluation,
{
    let compiled = engine::add_template(env, TPL_NAME, input);
    let outcome = match compiled {
        Ok(()) => match engine::render_template(env, TPL_NAME, root) {
            Ok(text) => Ok(text),
            Err(e) => Err(failure_of(&e)),
        },
        Err(e) => Err(failure_of(&e)),
    };
    engine::remove_template(env, TPL_NAME);
    assert(env_templates(*env) =~= env_templates(*old(env)).remove(TPL_NAME@));
    outcome
}

/// No compiled state is left over: the templates held after a render are
/// those held before it without the render's own, so the render's template
/// is not among them, and a renderer that held no template holds none.
pub proof fn lemma_no_template_left(before: Set<Seq<char>>)
    ensures
        !before.remove(TPL_NAME@).contains(TPL_NAME@),
        before.remove(TPL_NAME@).subset_of(before),
        before == Set::<Seq<char>>::empty() ==> before.remove(TPL_NAME@) == Set::<
            Seq<char>,
        >::empty(),
{
    if before == Set::<Seq<char>>::empty() {
        assert(before.remove(TPL_NAME@) =~= Set::<Seq<char>>::empty());
    }
}

/// Renders the templates found in the fields of one document.
pub struct TemplateRenderer {
    env: Environment<'static>,
    document: Arc<Document>,
}

impl TemplateRenderer {
    /// The names of the templates that the environment holds.
    pub closed spec fn templates(self) -> Set<Seq<char>> {
        env_templates(self.env)
    }

    /// The texts that the environment does not compile, each with the kind
    /// and the message of the error that compiling it gives.
    pub closed spec fn rejects(self) -> Map<(Seq<char>, Seq<char>), (Fault, Seq<char>)> {
        env_rejects(self.env)
    }

    /// Whether a method that a value does not know reaches the documents'
    /// helpers.
    pub closed spec fn has_method_door(self) -> bool {
        env_method_door(self.env)
    }

    /// The names of the filters that the environment holds.
    pub closed spec fn filters(self) -> Set<Seq<char>> {
        env_filters(self.env)
    }

    /// The helpers registered as global functions, by name.
    pub closed spec fn functions(self) -> Map<Seq<char>, Helper> {
        env_functions(self.env)
    }

    /// The document that templates are rendered against.
    pub closed spec fn document(self) -> DocumentModel {
        self.document@
    }

    /// A renderer for `document`, with a fresh environment that holds the
    /// string-forcing filter, no helper and no template.
    pub fn new(document: Arc<Document>) -> (r: TemplateRenderer)
        ensures
            r.document() == document@,
            r.filters().contains(STR_FILTER@),
            r.has_method_door(),
            r.functions() == (Map::<Seq<char>, Helper>::empty()),
            r.templates() == Set::<Seq<char>>::empty(),
    {
        let mut env = engine::new_environment();
        engine::add_force_filter(&mut env, STR_FILTER);
        engine::add_method_door(&mut env);
        TemplateRenderer { env, document }
    }

    /// Renders `input` against the document.
    ///
    /// Text without the template start character is plain: the result is
    /// `Ok(None)`, nothing is registered and nothing is compiled. Any other
    /// text is compiled and evaluated, after each of `helpers` has been
    /// registered as a global function under its name; the result is the
    /// text that the template wrote, or the one error that every failure
    /// collapses to. However the call ends, the helpers stay registered, no
    /// compiled template is left behind, and the renderer can be used again.
    pub fn render(&mut self, helpers: &Vec<Helper>, input: &str) -> (r: Result<
        Option<String>,
        RenderError,
    >)
        ensures
            final(self).document() == old(self).document(),
            final(self).filters() == old(self).filters(),
            final(self).rejects() == old(self).rejects(),
            final(self).has_method_door() == old(self).has_method_door(),
            has_template_start(input@) && old(self).rejects().contains_key(
                (TPL_NAME@, input@),
            ) ==> (r matches Err(e) && e.kind == kind_of_fault(
                old(self).rejects()[(TPL_NAME@, input@)].0,
            ) && e.message@ == old(self).rejects()[(TPL_NAME@, input@)].1),
            !has_template_start(input@) ==> r == Ok::<Option<String>, RenderError>(None),
            !has_template_start(input@) ==> *final(self) == *old(self),
            has_template_start(input@) ==> final(self).templates() == old(self).templates().remove(
                TPL_NAME@,
            ),
            has_template_start(input@) ==> final(self).functions() == register_all(
                old(self).functions(),
                helpers@,
            ),
            has_template_start(input@) ==> match r {
                Ok(text) => text is Some,
                Err(e) => e.kind == ErrorKind::Compile || e.kind == ErrorKind::MethodNotFound
                    || e.kind == ErrorKind::Evaluation,
            },
    {
        if !contains_template_start(input) {
            return Ok(None);
        }
        let root = Self::build_context(share(&self.document));
        register(&mut self.env, helpers);
        match evaluate(&mut self.env, input, root) {
            Ok(text) => Ok(Some(text)),
            Err(e) => Err(e),
        }
    }

    /// Registers each callable as a global function under the name that the
    /// callable declares. A callable that declares no name is a
    /// `Construction` error, and then none of them is registered.
    pub fn add_helpers(&mut self, callables: Vec<Py<PyAny>>) -> (r: Result<(), RenderError>)
        ensures
            final(self).document() == old(self).document(),
            final(self).templates() == old(self).templates(),
            final(self).filters() == old(self).filters(),
            final(self).rejects() == old(self).rejects(),
            final(self).has_method_door() == old(self).has_method_door(),
            callables@.len() == 0 ==> r is Ok,
            match r {
                Ok(_) => exists|helpers: Seq<Helper>| #[trigger]
                    name_callables(helpers, callables@) && final(self).functions()
                        == register_all(old(self).functions(), helpers),
                Err(e) => e.kind == ErrorKind::Construction && *final(self) == *old(self),
            },
    {
        let helpers = discover_all(callables)?;
        register(&mut self.env, &helpers);
        assert(name_callables(helpers@, callables@));
        Ok(())
    }

    /// The root context of a render: the document as an object of the
    /// engine, which resolves attributes and methods by asking the document.
    pub fn build_context(document: Arc<Document>) -> (r: Value)
        ensures
            r == engine_document(document@),
    {
        to_engine(&TemplateValue::Document(document))
    }

    /// The helper as a function of the engine: called with the engine's
    /// arguments, it marshals them, calls the helper, and marshals what the
    /// helper returned.
    pub fn create_helper_fn(helper: Helper) -> (r: Value)
        ensures
            r == engine_function(helper),
    {
        engine::function_value(helper)
    }
}

} // verus!
