use visibility_demo::cool;
use visibility_demo::deeply;
use visibility_demo::my;
use visibility_demo::my_mod;
use visibility_demo::mymy;
use visibility_demo::transcript;

#[test]
fn my_mod_function_line() {
    assert_eq!(my_mod::function(), "called 'my_mod::function()'\n");
}

#[test]
fn indirect_access_reaches_the_private_item() {
    assert_eq!(
        my_mod::indirect_access(),
        vec![
            "called 'my_mod::indirect_access()', that\n",
            "called 'my_mod::private_function()'\n",
        ]
    );
}

#[test]
fn nested_function_line() {
    assert_eq!(my_mod::nested::function(), "called 'my_mod::nested::function()'\n");
}

#[test]
fn call_public_in_my_mod_reaches_the_restricted_items() {
    assert_eq!(
        my_mod::call_public_in_my_mod(),
        vec![
            "called 'my_mod::call_public_function_in_my_mod()', that\n>",
            "called 'my_mod::nested::public_function_in_my_mod()', that\n",
            "called 'my_mod::nested::public_function_in_nested'\n",
            "> ",
            "called my_mod::nested::public_function_in_super_mod\n",
        ]
    );
}

#[test]
fn open_box_field_is_reachable() {
    let open_box = my::OpenBox { contents: "public information" };
    assert_eq!(open_box.contents, "public information");
}

#[test]
fn closed_box_new_keeps_the_contents() {
    let closed_box = my::ClosedBox::new("classified information");
    assert_eq!(closed_box.contents, "classified information");
}

#[test]
fn closed_box_new_keeps_an_integer() {
    let closed_box: my::ClosedBox<u64> = my::ClosedBox::new(42);
    assert_eq!(closed_box.contents, 42);
}

#[test]
fn deeply_nested_function_line() {
    assert_eq!(deeply::nested::function(), "called `deeply::nested::function()\n");
}

#[test]
fn cool_function_line() {
    assert_eq!(cool::function(), "called `cool::function()`\n");
}

#[test]
fn indirect_call_resolves_both_paths_to_one_item() {
    assert_eq!(
        mymy::indirect_call(),
        vec![
            "called `my::indirec_call()`, that\n\n",
            "called `my::function()`\n",
            "called `my::function()`\n",
        ]
    );
}

#[test]
fn transcript_chunks_in_order() {
    assert_eq!(
        transcript(),
        vec![
            "called `function()`\n",
            "called 'my_mod::function()'\n",
            "called 'my_mod::indirect_access()', that\n",
            "called 'my_mod::private_function()'\n",
            "called 'my_mod::nested::function()'\n",
            "called 'my_mod::call_public_function_in_my_mod()', that\n>",
            "called 'my_mod::nested::public_function_in_my_mod()', that\n",
            "called 'my_mod::nested::public_function_in_nested'\n",
            "> ",
            "called my_mod::nested::public_function_in_super_mod\n",
            "called 'my_mod::public_function_in_crate()'\n",
            "\n\n=====10.2.结构体的可见性=====\n",
            "The open box contains: ",
            "public information",
            "\n",
            "\n\n=====10.3.use声明=====\n",
            "called `deeply::nested::function()\n",
            "Entering block\n",
            "Leaving block\n",
            "called `function()`\n",
            "\n\n=====10.3.super和self=====\n",
        ]
    );
}

#[test]
fn transcript_joined_is_the_exact_output() {
    let mut out = String::new();
    for chunk in transcript() {
        out.push_str(chunk);
    }
    let expected = "called `function()`\ncalled 'my_mod::function()'\ncalled 'my_mod::indirect_access()', that\ncalled 'my_mod::private_function()'\ncalled 'my_mod::nested::function()'\ncalled 'my_mod::call_public_function_in_my_mod()', that\n>called 'my_mod::nested::public_function_in_my_mod()', that\ncalled 'my_mod::nested::public_function_in_nested'\n> called my_mod::nested::public_function_in_super_mod\ncalled 'my_mod::public_function_in_crate()'\n\n\n=====10.2.结构体的可见性=====\nThe open box contains: public information\n\n\n=====10.3.use声明=====\ncalled `deeply::nested::function()\nEntering block\nLeaving block\ncalled `function()`\n\n\n=====10.3.super和self=====\n";
    assert_eq!(out, expected);
}
