//! A private nested module: its items follow the same visibility rules, but
//! the module itself is unreachable from outside `my_mod`.

use vstd::prelude::*;

verus! {

/// Public within its module, yet unreachable from outside, because the
/// module itself is private.
pub fn function() -> (r: &'static str)
    ensures
        r@ == "called 'my_mod::private_nested::function()'\n"@,
{
    "called 'my_mod::private_nested::function()'\n"
}

} // verus!
