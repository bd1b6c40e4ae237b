//! Visibility of struct fields: a public struct whose field is reachable
//! directly, and one that is built through a constructor.

use vstd::prelude::*;

verus! {

/// A public struct with a public field: it can be built with a struct
/// literal and its field read from anywhere the struct is visible.
pub struct OpenBox<T> {
    pub contents: T,
}

/// A public struct built through its constructor.
pub struct ClosedBox<T> {
    pub contents: T,
}

impl<T> ClosedBox<T> {
    /// Builds a box around the given contents; the box holds exactly what
    /// was handed in.
    pub fn new(contents: T) -> (r: ClosedBox<T>)
        ensures
            r.contents == contents,
    {
        ClosedBox { contents: contents }
    }
}

} // verus!
