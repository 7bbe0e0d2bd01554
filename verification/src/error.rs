//! The single error type that every failure of a render collapses to.

use vstd::prelude::*;
use vstd::string::*;

verus! {

/// What went wrong.
#[derive(Clone, Copy, Debug, PartialEq, Eq, Structural)]
pub enum ErrorKind {
    /// A renderer, a document or a helper could not be set up.
    Construction,
    /// The template text is not valid template syntax.
    Compile,
    /// Evaluating the template failed.
    Evaluation,
    /// A value could not cross between the engine and the host.
    Marshal,
    /// No bound helper has the name that was called.
    MethodNotFound,
    /// A helper faulted on the host side.
    HostInvocation,
}

/// A failure, with a message for the caller to attach its own context to.
#[derive(Debug)]
pub struct RenderError {
    pub kind: ErrorKind,
    pub message: String,
}

impl RenderError {
    /// An error of the given kind whose message is `prefix` followed by `detail`.
    pub fn with_detail(kind: ErrorKind, prefix: &str, detail: &str) -> (e: RenderError)
        ensures
            e.kind == kind,
            e.message@ == prefix@ + detail@,
    {
        let message = String::from_str(prefix).concat(detail);
        RenderError { kind, message }
    }

    /// The kind's label, a colon and the message.
    pub fn describe(&self) -> (text: String)
        ensures
            text@ == kind_label(self.kind) + ": "@ + self.message@,
    {
        let label = match self.kind {
            ErrorKind::Construction => "construction error",
            ErrorKind::Compile => "compile error",
            ErrorKind::Evaluation => "evaluation error",
            ErrorKind::Marshal => "marshal error",
            ErrorKind::MethodNotFound => "method not found",
            ErrorKind::HostInvocation => "host invocation error",
        };
        String::from_str(label).concat(": ").concat(self.message.as_str())
    }
}

/// The label that `describe` prints for each kind.
pub open spec fn kind_label(kind: ErrorKind) -> Seq<char> {
    match kind {
        ErrorKind::Construction => "construction error"@,
        ErrorKind::Compile => "compile error"@,
        ErrorKind::Evaluation => "evaluation error"@,
        ErrorKind::Marshal => "marshal error"@,
        ErrorKind::MethodNotFound => "method not found"@,
        ErrorKind::HostInvocation => "host invocation error"@,
    }
}

} // verus!
