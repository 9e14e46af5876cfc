//! The naming conventions by which a declaration counts as a component and a
//! call as a hook call.
use vstd::prelude::*;
use vstd::std_specs::iter::IteratorSpec;
use vstd::string::*;

verus! {

/// Whether `c` has the Unicode property `Uppercase`, as the standard library
/// decides it.
pub uninterp spec fn unicode_uppercase(c: char) -> bool;

/// `char::is_uppercase` of the standard library. Its result is a matter of
/// the Unicode character tables, so it is only given a name here.
pub assume_specification[ char::is_uppercase ](c: char) -> (r: bool)
    ensures
        r == unicode_uppercase(c),
;

/// The hook-naming convention: the name starts with `use`, and the character
/// right after `use` is an uppercase one.
pub open spec fn hook_name(name: Seq<char>) -> bool {
    &&& name.len() > 3
    &&& name[0] == 'u'
    &&& name[1] == 's'
    &&& name[2] == 'e'
    &&& unicode_uppercase(name[3])
}

/// The component-naming convention: the first character is an uppercase one.
pub open spec fn component_name(name: Seq<char>) -> bool {
    name.len() > 0 && unicode_uppercase(name[0])
}

/// Decides whether `name` follows the hook-naming convention.
pub fn is_hook_name(name: &str) -> (r: bool)
    ensures
        r == hook_name(name@),
{
    broadcast use group_string_axioms;

    let mut it = name.chars();
    assert(it.remaining() == name@);
    let c0 = it.next();
    let c1 = it.next();
    let c2 = it.next();
    let c3 = it.next();
    match (c0, c1, c2, c3) {
        (Some('u'), Some('s'), Some('e'), Some(c)) => c.is_uppercase(),
        _ => false,
    }
}

/// Decides whether `name` follows the component-naming convention.
pub fn is_component_name(name: &str) -> (r: bool)
    ensures
        r == component_name(name@),
{
    broadcast use group_string_axioms;

    let mut it = name.chars();
    match it.next() {
        Some(c) => c.is_uppercase(),
        None => false,
    }
}

} // verus!
