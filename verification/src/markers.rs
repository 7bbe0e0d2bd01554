//! Reserved text markers shared with the stages that merge documents.

use vstd::prelude::*;

verus! {

/// Key under which a document refers to another document.
pub const REF: &'static str = "$ref";

/// Value that removes a field during a merge.
pub const REMOVE: &'static str = "$remove";

/// Prefix of a list item that removes an equal item during a merge.
pub const REMOVE_FROM_LIST_PREFIX: &'static str = "$remove::";

/// Prefix that marks a rendered value as a literal string. It is the only
/// marker this crate writes; the merging stage strips it and records the
/// field as text.
pub const FORCE_STRING: &'static str = "__forcestring__";

} // verus!
