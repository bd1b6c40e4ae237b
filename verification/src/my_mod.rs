//! Visibility of module items: a private function, public functions, a
//! `pub(crate)` function, and nested modules whose items carry
//! `pub(in path)`, `pub(self)` and `pub(super)` restrictions.

use vstd::prelude::*;

pub mod nested;
#[allow(dead_code)]
mod private_nested;

verus! {

/// A private item: only items of this module can call it. `indirect_access`
/// hands its report out.
fn private_function() -> (r: &'static str)
    ensures
        r@ == "called 'my_mod::private_function()'\n"@,
{
    "called 'my_mod::private_function()'\n"
}

/// A public item, reachable from outside the module.
pub fn function() -> (r: &'static str)
    ensures
        r@ == "called 'my_mod::function()'\n"@,
{
    "called 'my_mod::function()'\n"
}

/// Items of a module can reach its private items: the second chunk comes
/// from `private_function`.
pub fn indirect_access() -> (r: Vec<&'static str>)
    ensures
        r@.len() == 2,
        r@[0]@ == "called 'my_mod::indirect_access()', that\n"@,
        r@[1]@ == "called 'my_mod::private_function()'\n"@,
{
    let mut r: Vec<&'static str> = Vec::new();
    r.push("called 'my_mod::indirect_access()', that\n");
    r.push(private_function());
    r
}

/// This module is an ancestor of `nested`, so it can reach the
/// `pub(in path)` and `pub(super)` items declared there.
pub fn call_public_in_my_mod() -> (r: Vec<&'static str>)
    ensures
        r@.len() == 5,
        r@[0]@ == "called 'my_mod::call_public_function_in_my_mod()', that\n>"@,
        r@[1]@ == "called 'my_mod::nested::public_function_in_my_mod()', that\n"@,
        r@[2]@ == "called 'my_mod::nested::public_function_in_nested'\n"@,
        r@[3]@ == "> "@,
        r@[4]@ == "called my_mod::nested::public_function_in_super_mod\n"@,
{
    let mut r: Vec<&'static str> = Vec::new();
    r.push("called 'my_mod::call_public_function_in_my_mod()', that\n>");
    let p = nested::public_function_in_my_mod();
    r.push(p[0]);
    r.push(p[1]);
    r.push("> ");
    r.push(nested::public_function_in_super_mod());
    r
}

/// A `pub(crate)` item: reachable anywhere in this crate, but not from
/// outside it. The crate root's `transcript` exercises it.
pub(crate) fn public_function_in_crate() -> (r: &'static str)
    ensures
        r@ == "called 'my_mod::public_function_in_crate()'\n"@,
{
    "called 'my_mod::public_function_in_crate()'\n"
}

} // verus!
