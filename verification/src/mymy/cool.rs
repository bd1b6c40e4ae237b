//! The `cool` module nested inside `mymy`, distinct from the crate root's.

use vstd::prelude::*;

verus! {

/// Public within its module; the module itself is private to `mymy`.
pub fn function() -> (r: &'static str)
    ensures
        r@ == "called `my::cool::function()`\n"@,
{
    "called `my::cool::function()`\n"
}

} // verus!
