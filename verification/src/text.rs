//! Small helpers on string slices.

use vstd::prelude::*;
use vstd::string::StrSliceExecFns;

verus! {

/// Tells whether two string slices hold the same characters.
pub fn same_text(a: &str, b: &str) -> (r: bool)
    ensures
        r == (a@ == b@),
{
    let left: String = a.to_owned();
    let right: String = b.to_owned();
    left == right
}

/// The first character of `input`, as a string of its own.
pub fn first_char(input: &str) -> (r: String)
    requires
        input@.len() > 0,
    ensures
        r@ == seq![input@[0]],
{
    let head: &str = input.substring_char(0, 1);
    assert(input@.subrange(0, 1) =~= seq![input@[0]]);
    head.to_owned()
}

} // verus!
