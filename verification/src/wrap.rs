//! Line wrapping.
use vstd::prelude::*;

use crate::text::texts;

verus! {

/// The lines into which `textwrap::wrap` breaks a text at a width.
pub uninterp spec fn wrapped(text: Seq<char>, width: nat) -> Seq<Seq<char>>;

/// `textwrap::wrap` with a width and otherwise default options: the lines
/// depend on the text and the width alone.
#[verifier::external_body]
pub(crate) fn wrap(text: &str, width: usize) -> (r: Vec<String>)
    ensures
        texts(r@) == wrapped(text@, width as nat),
{
    textwrap::wrap(text, width).into_iter().map(|line| line.into_owned()).collect()
}

} // verus!
