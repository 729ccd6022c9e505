use vstd::prelude::*;

pub mod model;
pub mod errors;
mod clock;
pub mod numfmt;
pub mod strutil;
pub mod form;
pub mod render;
pub mod templates;
pub mod handlers;
pub mod laws;
pub mod store;

verus! {

/// A rendered HTTP response: a status code and an HTML body.
#[derive(Debug)]
pub struct HtmlResponse {
    pub status: u16,
    pub body: String,
}

} // verus!
