//! Code-generation helper for a web-application scaffolding tool.
//!
//! Given a model name and a list of field annotations, the library
//! classifies each annotation, resolves it into typed database columns
//! and foreign-key references, and plans the template rendering and
//! build-tool invocations that materialize the new model.

use vstd::prelude::*;

pub mod generate;
pub mod infer;
pub mod mappings;
pub mod migration;
pub mod model;
pub mod text;

verus! {

/// The single error shape used across the library: a tagged,
/// human-readable message.
#[derive(Debug)]
pub enum Error {
    Message(String),
}

impl View for Error {
    type V = Seq<char>;

    /// The characters of the carried message.
    open spec fn view(&self) -> Seq<char> {
        match self {
            Error::Message(s) => s@,
        }
    }
}

impl Error {
    /// Returns the human-readable message carried by this error.
    pub fn message(&self) -> (r: String)
        ensures
            r@ == self@,
    {
        match self {
            Error::Message(s) => s.clone(),
        }
    }
}

/// Configuration of the host application: at minimum the package name
/// used to namespace generated code.
pub struct AppInfo {
    pub app_name: String,
}

} // verus!
