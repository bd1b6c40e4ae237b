//! The innermost module behind the `use` alias.

use vstd::prelude::*;

verus! {

/// Reachable both by its full path and through the crate root's alias.
pub fn function() -> (r: &'static str)
    ensures
        r@ == "called `deeply::nested::function()\n"@,
{
    "called `deeply::nested::function()\n"
}

} // verus!
