use vstd::prelude::*;

verus! {

/// A failure of the store: the connection could not be acquired, or the
/// insert or query itself failed (in the in-memory model, the only query
/// failure is an exhausted identifier counter).
#[derive(PartialEq, Eq, Structural, Clone, Copy, Debug)]
pub enum StoreError {
    ConnectionError,
    QueryError,
}

/// A failure to parse a form body: a malformed pair, a bad percent escape,
/// a missing field, or a duplicated field.
#[derive(PartialEq, Eq, Structural, Clone, Copy, Debug)]
pub enum ParseError {
    MalformedPair,
    BadEscape,
    MissingField,
    DuplicateField,
}

/// A failure to render: no template of the requested name is held.
#[derive(PartialEq, Eq, Structural, Clone, Copy, Debug)]
pub enum RenderError {
    MissingTemplate,
}

} // verus!
