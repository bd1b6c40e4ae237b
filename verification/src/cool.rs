//! A module at the crate root that shares the name of a module nested
//! inside `mymy`: paths with `self` and `super` tell the two apart.

use vstd::prelude::*;

verus! {

/// The crate-root `cool::function`.
pub fn function() -> (r: &'static str)
    ensures
        r@ == "called `cool::function()`\n"@,
{
    "called `cool::function()`\n"
}

} // verus!
