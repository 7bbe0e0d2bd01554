//! A document as the engine sees it: an object whose attributes are the
//! document's fields and whose methods are the helpers bound to it.

use crate::error::{ErrorKind, RenderError};
use crate::helper::{
    all_marshal, bind_helpers, discover_all, find_helper, name_callables, template_models,
    Helper, HelperRegistry,
};
use crate::value::{
    convert, lookup, Dict, Document, DocumentModel, TemplateModel, TemplateValue, ValueModel,
};
use pyo3::{Py, PyAny};
use vstd::prelude::*;
use vstd::string::*;

verus! {

/// The message of the error for a method that no helper is bound to.
pub open spec fn method_not_found_message(name: Seq<char>) -> Seq<char> {
    "Method "@ + name + " not found on object"@
}

/// Whether a template value is what the converter makes of some structured
/// value.
pub open spec fn is_converted(t: TemplateModel) -> bool {
    exists|m: ValueModel| t == #[trigger] convert(m)
}

/// Whether a helper is bound to `name` on the document.
pub open spec fn is_method(document: DocumentModel, name: Seq<char>) -> bool {
    find_helper(document.helpers, name) is Some
}

impl Document {
    /// A document with the given fields, and with each callable bound under
    /// the name that it declares, a later one in place of an earlier one of
    /// the same name. A callable that declares no name is a `Construction`
    /// error. The bindings are collected here, once, and never again.
    pub fn collect(fields: Dict, callables: Vec<Py<PyAny>>) -> (r: Result<Document, RenderError>)
        ensures
            callables@.len() == 0 ==> r is Ok,
            match r {
                Ok(d) => d@.fields == fields@ && exists|helpers: Seq<Helper>| #[trigger]
                    name_callables(helpers, callables@) && d@.helpers == bind_helpers(
                        Seq::<Helper>::empty(),
                        helpers,
                    ),
                Err(e) => e.kind == ErrorKind::Construction,
            },
    {
        let helpers = discover_all(callables)?;
        assert(name_callables(helpers@, callables@));
        Ok(Document::new(fields, HelperRegistry::from_helpers(&helpers)))
    }

    /// Whether a helper is bound to `name`, whatever the fields hold.
    pub fn has_method(&self, name: &str) -> (r: bool)
        ensures
            r == is_method(self@, name@),
    {
        self.bound_helpers().lookup(name).is_some()
    }

    /// The value of the field `name`, as the engine takes it. A name that is
    /// no field gives no value and no error: the engine then applies its own
    /// rule for an undefined name.
    pub fn get_attr(&self, name: &str) -> (r: Option<TemplateValue>)
        ensures
            match lookup(self@.fields, name@) {
                Some(v) => r matches Some(t) && t@ == convert(v),
                None => r is None,
            },
    {
        match self.fields().get(name) {
            Some(value) => Some(value.to_template()),
            None => None,
        }
    }

    /// Calls the helper bound to `name` with `args`. A name that no helper is
    /// bound to is a `MethodNotFound` error. Otherwise the helper is called:
    /// a composite argument is a `Marshal` error, and the host decides the
    /// rest.
    pub fn call_method(&self, name: &str, args: &Vec<TemplateValue>) -> (r: Result<
        TemplateValue,
        RenderError,
    >)
        ensures
            !is_method(self@, name@) ==> (r matches Err(e) && e.kind == ErrorKind::MethodNotFound
                && e.message@ == method_not_found_message(name@)),
            is_method(self@, name@) ==> (r matches Err(e) ==> e.kind == ErrorKind::Marshal
                || e.kind == ErrorKind::HostInvocation),
            is_method(self@, name@) && !all_marshal(template_models(args@)) ==> (r matches Err(e)
                && e.kind == ErrorKind::Marshal),
            r matches Ok(t) ==> is_converted(t@),
    {
        match self.bound_helpers().lookup(name) {
            None => {
                let message = String::from_str("Method ").concat(name).concat(
                    " not found on object",
                );
                Err(RenderError { kind: ErrorKind::MethodNotFound, message })
            },
            Some(helper) => match helper.call(args) {
                Ok(value) => Ok(value.to_template()),
                Err(e) => Err(e),
            },
        }
    }
}

} // verus!
