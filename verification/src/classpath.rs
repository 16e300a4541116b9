//! What the server jar says of itself.

use vstd::prelude::*;

verus! {

/// What the launcher needs to know of the server.
#[derive(Debug, PartialEq, Eq)]
pub struct TackMeta {
    /// The name of the class whose `main` is called, with dots.
    pub main_class: String,
}

} // verus!
