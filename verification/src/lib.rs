//! A small library that demonstrates module visibility and path resolution:
//! private items, `pub(crate)`, `pub(in path)`, `pub(self)`, `pub(super)`,
//! nested modules and `use` aliasing. Each demonstration function reports the
//! call it stands for by returning the exact text the demonstration emits,
//! and its contract pins that text down character for character.
//! `transcript` assembles the whole tour in order.

use vstd::prelude::*;

pub mod cool;
pub mod deeply;
pub mod my;
pub mod my_mod;
pub mod mymy;

verus! {

use crate::deeply::nested::function as other_function;

/// The crate-root `function`, told apart from the modules' by its path.
fn function() -> (r: &'static str)
    ensures
        r@ == "called `function()`\n"@,
{
    "called `function()`\n"
}

/// The full tour of the demonstrations, in order, as the chunks of text
/// they emit. Concatenated, the chunks are the tour's exact output.
pub fn transcript() -> (r: Vec<&'static str>)
    ensures
        r@.len() == 21,
        r@[0]@ == "called `function()`\n"@,
        r@[1]@ == "called 'my_mod::function()'\n"@,
        r@[2]@ == "called 'my_mod::indirect_access()', that\n"@,
        r@[3]@ == "called 'my_mod::private_function()'\n"@,
        r@[4]@ == "called 'my_mod::nested::function()'\n"@,
        r@[5]@ == "called 'my_mod::call_public_function_in_my_mod()', that\n>"@,
        r@[6]@ == "called 'my_mod::nested::public_function_in_my_mod()', that\n"@,
        r@[7]@ == "called 'my_mod::nested::public_function_in_nested'\n"@,
        r@[8]@ == "> "@,
        r@[9]@ == "called my_mod::nested::public_function_in_super_mod\n"@,
        r@[10]@ == "called 'my_mod::public_function_in_crate()'\n"@,
        r@[11]@ == "\n\n=====10.2.结构体的可见性=====\n"@,
        r@[12]@ == "The open box contains: "@,
        r@[13]@ == "public information"@,
        r@[14]@ == "\n"@,
        r@[15]@ == "\n\n=====10.3.use声明=====\n"@,
        r@[16]@ == "called `deeply::nested::function()\n"@,
        r@[17]@ == "Entering block\n"@,
        r@[18]@ == "Leaving block\n"@,
        r@[19]@ == "called `function()`\n"@,
        r@[20]@ == "\n\n=====10.3.super和self=====\n"@,
{
    let mut r: Vec<&'static str> = Vec::new();
    r.push(function());
    r.push(my_mod::function());
    let ia = my_mod::indirect_access();
    r.push(ia[0]);
    r.push(ia[1]);
    r.push(my_mod::nested::function());
    let cp = my_mod::call_public_in_my_mod();
    r.push(cp[0]);
    r.push(cp[1]);
    r.push(cp[2]);
    r.push(cp[3]);
    r.push(cp[4]);
    r.push(my_mod::public_function_in_crate());
    r.push("\n\n=====10.2.结构体的可见性=====\n");
    let open_box = my::OpenBox { contents: "public information" };
    r.push("The open box contains: ");
    r.push(open_box.contents);
    r.push("\n");
    let _closed_box = my::ClosedBox::new("classified information");
    r.push("\n\n=====10.3.use声明=====\n");
    r.push(other_function());
    r.push("Entering block\n");
    r.push("Leaving block\n");
    r.push(function());
    r.push("\n\n=====10.3.super和self=====\n");
    r
}

} // verus!
