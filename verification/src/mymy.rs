//! Disambiguating items that share a name: `self::function()` and a bare
//! `function()` resolve to the same item of the current module.

use vstd::prelude::*;

#[allow(dead_code)]
mod cool;

verus! {

/// The private `function` of this module, shadowing the crate root's.
fn function() -> (r: &'static str)
    ensures
        r@ == "called `my::function()`\n"@,
{
    "called `my::function()`\n"
}

/// Calls `function` once through `self::` and once bare: both paths name
/// the same item, so the same report comes back twice.
pub fn indirect_call() -> (r: Vec<&'static str>)
    ensures
        r@.len() == 3,
        r@[0]@ == "called `my::indirec_call()`, that\n\n"@,
        r@[1]@ == "called `my::function()`\n"@,
        r@[2]@ == "called `my::function()`\n"@,
{
    let mut r: Vec<&'static str> = Vec::new();
    r.push("called `my::indirec_call()`, that\n\n");
    r.push(self::function());
    r.push(function());
    r
}

} // verus!
