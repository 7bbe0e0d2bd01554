//! Template rendering for structured configuration documents.
//!
//! A document field may hold text with embedded template expressions that
//! read other fields of the same document and call helper functions supplied
//! by the host. This crate converts structured values into the values the
//! template engine works on, exposes a document to the engine as an object
//! with attributes and methods, adapts host callables into template
//! functions, and renders one template per call.

pub mod binding;
pub mod document;
pub mod engine;
pub mod error;
pub mod helper;
pub mod host;
pub mod markers;
pub mod renderer;
pub mod text;
pub mod value;
