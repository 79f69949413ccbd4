//! The name of a window that the library draws to.

use vstd::prelude::*;

verus! {

/// What is appended to the name of a window once a context is made current
/// on it.
pub open spec fn title_tag() -> Seq<char> {
    " [glOOF]"@
}

/// `String::push_str`: appends `tail` to `s`; what `s` held before stays in
/// front of it.
#[verifier::external_body]
fn push_str(s: &mut String, tail: &str)
    ensures
        final(s)@ == old(s)@ + tail@,
{
    s.push_str(tail);
}

/// The name that a window called `name` gets: `name` with the tag behind it.
pub fn tagged_title(name: &str) -> (title: String)
    ensures
        title@ == name@ + title_tag(),
{
    let mut title = name.to_owned();
    push_str(&mut title, " [glOOF]");
    title
}

} // verus!
