//! The renderer: the text written so far and the nesting depth that the next
//! line is indented by.

use vstd::prelude::*;
use vstd::string::*;
use crate::text::{indentation, lemma_indentation_is_ascii, lemma_indentation_step};

verus! {

/// The nesting depth. It is kept as the indentation itself, four spaces for
/// each level, which no number of levels can overflow, beside the count of
/// the scopes that were entered and of those that were left.
struct Nesting {
    margin: String,
    entered: Ghost<nat>,
    left: Ghost<nat>,
}

impl Nesting {
    /// The depth is the number of scopes that were entered and not left yet,
    /// and the margin is the indentation of that depth.
    #[verifier::type_invariant]
    spec fn balanced(self) -> bool {
        &&& self.left@ <= self.entered@
        &&& self.margin@ == indentation((self.entered@ - self.left@) as nat)
    }
}

/// Collects the text of a rendering and keeps the current nesting depth.
pub struct Renderer {
    out: String,
    nesting: Nesting,
}

/// What a renderer holds: the text so far, the depth, and how often a scope
/// was entered and left since the renderer was made.
#[verifier::ext_equal]
pub struct RendererView {
    pub text: Seq<char>,
    pub depth: nat,
    pub entered: nat,
    pub left: nat,
}

impl View for Renderer {
    type V = RendererView;

    closed spec fn view(&self) -> RendererView {
        RendererView {
            text: self.out@,
            depth: (self.nesting.entered@ - self.nesting.left@) as nat,
            entered: self.nesting.entered@,
            left: self.nesting.left@,
        }
    }
}

impl Renderer {
    /// A renderer with no text, at depth 0.
    pub fn new() -> (f: Renderer)
        ensures
            f@ == (RendererView { text: Seq::empty(), depth: 0, entered: 0, left: 0 }),
    {
        proof {
            lemma_indentation_step(0);
        }
        Renderer {
            out: String::new(),
            nesting: Nesting { margin: String::new(), entered: Ghost(0), left: Ghost(0) },
        }
    }

    /// The current depth. It is the number of scopes entered and not left,
    /// and so never negative.
    pub fn depth(&self) -> (depth: usize)
        ensures
            depth == self@.depth,
            self@.depth + self@.left == self@.entered,
    {
        let margin = self.nesting.margin.as_str();
        proof {
            use_type_invariant(&self.nesting);
            lemma_indentation_is_ascii(margin, self@.depth);
        }
        margin.as_bytes().len() / 4
    }

    /// Appends `s` to the text.
    pub fn write(&mut self, s: &str)
        ensures
            final(self)@ == (RendererView { text: old(self)@.text + s@, ..old(self)@ }),
    {
        self.out.append(s);
    }

    /// Enters a scope: what follows is indented one level more.
    pub fn enter(&mut self)
        ensures
            final(self)@ == (RendererView {
                depth: old(self)@.depth + 1,
                entered: old(self)@.entered + 1,
                ..old(self)@
            }),
    {
        proof {
            use_type_invariant(&self.nesting);
            lemma_indentation_step(self@.depth);
        }
        let mut margin = self.nesting.margin.clone();
        margin.append("    ");
        self.nesting = Nesting {
            margin,
            entered: Ghost(self.nesting.entered@ + 1),
            left: self.nesting.left,
        };
    }

    /// Leaves the scope entered last.
    pub fn leave(&mut self)
        requires
            old(self)@.depth > 0,
        ensures
            final(self)@ == (RendererView {
                depth: (old(self)@.depth - 1) as nat,
                left: old(self)@.left + 1,
                ..old(self)@
            }),
    {
        let inner = self.nesting.margin.as_str();
        proof {
            use_type_invariant(&self.nesting);
            lemma_indentation_is_ascii(inner, self@.depth);
        }
        let width = inner.as_bytes().len();
        let margin = String::from_str(inner.substring_ascii(0, width - 4));
        assert(margin@ =~= indentation((self@.depth - 1) as nat));
        self.nesting = Nesting {
            margin,
            entered: self.nesting.entered,
            left: Ghost(self.nesting.left@ + 1),
        };
    }

    /// Ends the rendering and hands out the text.
    pub fn finish(self) -> (text: String)
        ensures
            text@ == self@.text,
    {
        self.out
    }
}

/// Writes the indentation of the current depth.
pub fn indent(f: &mut Renderer)
    ensures
        final(f)@ == (RendererView {
            text: old(f)@.text + indentation(old(f)@.depth),
            ..old(f)@
        }),
{
    proof {
        use_type_invariant(&f.nesting);
    }
    f.out.append(f.nesting.margin.as_str());
}

} // verus!
