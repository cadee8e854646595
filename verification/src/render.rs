//! Rendering: each kind of declaration writes its text to a renderer.

use vstd::prelude::*;
use crate::cpp_ast::{Declaration, File, Function, Struct, Var};
use crate::layout::{
    declarations_text, directives_text, members_text, scopes_among, statements_text,
};
use crate::renderer::{indent, Renderer, RendererView};

verus! {

impl Var {
    /// Writes the variable at the renderer's depth: the text grows by
    /// `self@.text(depth)` and nothing else changes.
    pub fn fmt(&self, f: &mut Renderer)
        ensures
            final(f)@ == (RendererView {
                text: old(f)@.text + self@.text(old(f)@.depth),
                ..old(f)@
            }),
    {
        indent(f);
        f.write(self.ty.as_str());
        f.write(" ");
        f.write(self.name.as_str());
        match &self.init {
            Some(init) => {
                f.write(" = ");
                f.write(init.as_str());
            },
            None => {},
        }
        f.write(";\n");
    }
}

impl Function {
    /// Writes the function at the renderer's depth: the text grows by
    /// `self@.text(depth)` and nothing else changes. The statements stand
    /// four spaces right of the function, whatever the depth.
    pub fn fmt(&self, f: &mut Renderer)
        ensures
            final(f)@ == (RendererView {
                text: old(f)@.text + self@.text(old(f)@.depth),
                ..old(f)@
            }),
    {
        let ghost depth = f@.depth;
        indent(f);
        if !self.is_constructor {
            f.write("auto ");
        }
        f.write(self.name.as_str());
        f.write(" ");
        f.write(self.signature.as_str());
        f.write(" {\n");
        let ghost head = f@.text;
        let n = self.statements.len();
        let mut i: usize = 0;
        while i < n
            invariant
                i <= n,
                n == self.statements.len(),
                depth == old(f)@.depth,
                f@ == (RendererView {
                    text: head + statements_text(self@.statements.take(i as int), depth),
                    ..old(f)@
                }),
            decreases n - i,
        {
            indent(f);
            f.write("    ");
            f.write(self.statements[i].as_str());
            f.write("\n");
            proof {
                let done = self@.statements.take(i + 1);
                assert(done.drop_last() =~= self@.statements.take(i as int));
                assert(done.last() == self@.statements[i as int]);
            }
            i = i + 1;
        }
        assert(self@.statements.take(n as int) =~= self@.statements);
        indent(f);
        f.write("}\n");
    }
}

impl Struct {
    /// Writes the struct at the renderer's depth, its members one level
    /// deeper. The text grows by `self@.text(depth)`; the depth is afterwards
    /// what it was before, and as many scopes were left as were entered: one
    /// for each struct of the tree.
    pub fn fmt(&self, f: &mut Renderer)
        ensures
            final(f)@ == (RendererView {
                text: old(f)@.text + self@.text(old(f)@.depth),
                depth: old(f)@.depth,
                entered: old(f)@.entered + self@.scopes(),
                left: old(f)@.left + self@.scopes(),
            }),
        decreases self,
    {
        let ghost depth = f@.depth;
        indent(f);
        f.write("struct ");
        f.write(self.name.as_str());
        f.write(" {\n");
        f.enter();
        let ghost head = f@.text;
        let n = self.members.len();
        let mut i: usize = 0;
        while i < n
            invariant
                i <= n,
                n == self.members.len(),
                depth == old(f)@.depth,
                f@ == (RendererView {
                    text: head + members_text(self@.members.take(i as int), depth + 1),
                    depth: depth + 1,
                    entered: old(f)@.entered + 1 + scopes_among(self@.members.take(i as int)),
                    left: old(f)@.left + scopes_among(self@.members.take(i as int)),
                }),
            decreases n - i,
        {
            self.members[i].fmt(f);
            proof {
                let done = self@.members.take(i + 1);
                assert(done.drop_last() =~= self@.members.take(i as int));
                assert(done.last() == self@.members[i as int]);
            }
            i = i + 1;
        }
        assert(self@.members.take(n as int) =~= self@.members);
        f.leave();
        indent(f);
        f.write("};\n");
    }
}

impl Declaration {
    /// Writes the declaration, whichever kind it is, at the renderer's depth.
    /// The text grows by `self@.text(depth)`; the depth is afterwards what it
    /// was before, and as many scopes were left as were entered.
    pub fn fmt(&self, f: &mut Renderer)
        ensures
            final(f)@ == (RendererView {
                text: old(f)@.text + self@.text(old(f)@.depth),
                depth: old(f)@.depth,
                entered: old(f)@.entered + self@.scopes(),
                left: old(f)@.left + self@.scopes(),
            }),
        decreases self,
    {
        match self {
            Declaration::Struct(s) => s.fmt(f),
            Declaration::Function(function) => function.fmt(f),
            Declaration::Var(v) => v.fmt(f),
        }
    }
}

impl File {
    /// The text of the file, from a renderer of its own that starts at depth
    /// 0: one directive for each header, then each declaration after a blank
    /// line.
    pub fn render(&self) -> (text: String)
        ensures
            text@ == self@.text(),
    {
        let mut f = Renderer::new();
        let n = self.includes.len();
        let mut i: usize = 0;
        while i < n
            invariant
                i <= n,
                n == self.includes.len(),
                f@ == (RendererView {
                    text: directives_text(self@.includes.take(i as int)),
                    depth: 0,
                    entered: 0,
                    left: 0,
                }),
            decreases n - i,
        {
            f.write("#include ");
            f.write(self.includes[i].as_str());
            f.write("\n");
            proof {
                let done = self@.includes.take(i + 1);
                assert(done.drop_last() =~= self@.includes.take(i as int));
                assert(done.last() == self@.includes[i as int]);
            }
            i = i + 1;
        }
        assert(self@.includes.take(n as int) =~= self@.includes);
        let ghost head = f@.text;
        let m = self.declarations.len();
        let mut j: usize = 0;
        while j < m
            invariant
                j <= m,
                m == self.declarations.len(),
                f@.text == head + declarations_text(self@.declarations.take(j as int)),
                f@.depth == 0,
            decreases m - j,
        {
            f.write("\n");
            self.declarations[j].fmt(&mut f);
            proof {
                let done = self@.declarations.take(j + 1);
                assert(done.drop_last() =~= self@.declarations.take(j as int));
                assert(done.last() == self@.declarations[j as int]);
            }
            j = j + 1;
        }
        assert(self@.declarations.take(m as int) =~= self@.declarations);
        f.finish()
    }
}

} // verus!
