//! A nested module whose items carry path-restricted visibility.

use vstd::prelude::*;

verus! {

/// Public items of a nested module are reachable from outside the parent.
pub fn function() -> (r: &'static str)
    ensures
        r@ == "called 'my_mod::nested::function()'\n"@,
{
    "called 'my_mod::nested::function()'\n"
}

/// Private even to the parent module.
#[allow(dead_code)]
fn private_function() -> (r: &'static str)
    ensures
        r@ == "called 'my_mod::nested::private_function()'\n"@,
{
    "called 'my_mod::nested::private_function()'\n"
}

/// A `pub(in path)` item is visible only within the given ancestor path;
/// here, within `my_mod`. Its second chunk comes from the `pub(self)` item.
pub(in crate::my_mod) fn public_function_in_my_mod() -> (r: Vec<&'static str>)
    ensures
        r@.len() == 2,
        r@[0]@ == "called 'my_mod::nested::public_function_in_my_mod()', that\n"@,
        r@[1]@ == "called 'my_mod::nested::public_function_in_nested'\n"@,
{
    let mut r: Vec<&'static str> = Vec::new();
    r.push("called 'my_mod::nested::public_function_in_my_mod()', that\n");
    r.push(public_function_in_nested());
    r
}

/// A `pub(self)` item is visible only within this module.
pub(self) fn public_function_in_nested() -> (r: &'static str)
    ensures
        r@ == "called 'my_mod::nested::public_function_in_nested'\n"@,
{
    "called 'my_mod::nested::public_function_in_nested'\n"
}

/// A `pub(super)` item is visible only within the parent module.
pub(super) fn public_function_in_super_mod() -> (r: &'static str)
    ensures
        r@ == "called my_mod::nested::public_function_in_super_mod\n"@,
{
    "called my_mod::nested::public_function_in_super_mod\n"
}

} // verus!
