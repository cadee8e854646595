//! Indentation: the run of spaces that starts every line of the output.

use vstd::prelude::*;
use vstd::string::*;

verus! {

/// The indentation of a line at nesting depth `depth`: four spaces per level.
pub open spec fn indentation(depth: nat) -> Seq<char> {
    Seq::new(4 * depth, |i: int| ' ')
}

/// One level more of nesting adds one run of four spaces, and depth 0 has no
/// indentation.
pub proof fn lemma_indentation_step(depth: nat)
    ensures
        indentation(depth + 1) == indentation(depth) + "    "@,
        indentation(0) == Seq::<char>::empty(),
{
    reveal_strlit("    ");
    assert(indentation(depth + 1) =~= indentation(depth) + "    "@);
    assert(indentation(0) =~= Seq::<char>::empty());
}

/// A string that holds an indentation is ASCII, and as many bytes long as
/// the indentation has characters.
pub proof fn lemma_indentation_is_ascii(s: &str, depth: nat)
    requires
        s@ == indentation(depth),
    ensures
        s.is_ascii(),
        s.spec_bytes().len() == 4 * depth,
{
    is_ascii_spec_bytes(s);
}

} // verus!
