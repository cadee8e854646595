//! What the text of a declaration tree is: one spec function for each kind of
//! node, over the view of the tree and the nesting depth it is printed at.

use vstd::prelude::*;
use crate::cpp_ast::{DeclarationView, FileView, FunctionView, StructView, VarView};
use crate::text::indentation;

verus! {

/// The line of one statement of a function printed at `depth`: the
/// function's own indentation, four more spaces, the statement, a line end.
pub open spec fn statement_text(statement: Seq<char>, depth: nat) -> Seq<char> {
    indentation(depth) + "    "@ + statement + "\n"@
}

/// The lines of `statements` in order.
pub open spec fn statements_text(statements: Seq<Seq<char>>, depth: nat) -> Seq<char>
    decreases statements.len(),
{
    if statements.len() == 0 {
        Seq::empty()
    } else {
        statements_text(statements.drop_last(), depth) + statement_text(statements.last(), depth)
    }
}

/// The texts of `members` one after the other, each printed at `depth`.
pub open spec fn members_text(members: Seq<DeclarationView>, depth: nat) -> Seq<char>
    decreases members,
{
    if members.len() == 0 {
        Seq::empty()
    } else {
        members_text(members.drop_last(), depth) + members.last().text(depth)
    }
}

/// The number of structs in `declarations`, nested ones included.
pub open spec fn scopes_among(declarations: Seq<DeclarationView>) -> nat
    decreases declarations,
{
    if declarations.len() == 0 {
        0
    } else {
        scopes_among(declarations.drop_last()) + declarations.last().scopes()
    }
}

impl VarView {
    /// `{ty} {name};`, with ` = {init}` before the semicolon where there is
    /// an initializer.
    pub open spec fn text(self, depth: nat) -> Seq<char> {
        indentation(depth) + self.ty + " "@ + self.name + match self.init {
            Some(init) => " = "@ + init,
            None => Seq::empty(),
        } + ";\n"@
    }
}

impl FunctionView {
    /// The keyword that opens a function: none for a constructor.
    pub open spec fn keyword(self) -> Seq<char> {
        if self.is_constructor {
            Seq::empty()
        } else {
            "auto "@
        }
    }

    /// `auto {name} {signature} {`, the statements, and the closing brace.
    pub open spec fn text(self, depth: nat) -> Seq<char> {
        indentation(depth) + self.keyword() + self.name + " "@ + self.signature + " {\n"@
            + statements_text(self.statements, depth)
            + indentation(depth) + "}\n"@
    }
}

impl StructView {
    /// `struct {name} {`, the members one level deeper, and `};`.
    pub open spec fn text(self, depth: nat) -> Seq<char>
        decreases self,
    {
        indentation(depth) + "struct "@ + self.name + " {\n"@
            + members_text(self.members, depth + 1)
            + indentation(depth) + "};\n"@
    }

    /// The number of structs in this tree, itself included.
    pub open spec fn scopes(self) -> nat
        decreases self,
    {
        1 + scopes_among(self.members)
    }
}

impl DeclarationView {
    /// The text of the declaration printed at `depth`.
    pub open spec fn text(self, depth: nat) -> Seq<char>
        decreases self,
    {
        match self {
            DeclarationView::Struct(s) => s.text(depth),
            DeclarationView::Function(f) => f.text(depth),
            DeclarationView::Var(v) => v.text(depth),
        }
    }

    /// The number of structs in the declaration.
    pub open spec fn scopes(self) -> nat
        decreases self,
    {
        match self {
            DeclarationView::Struct(s) => s.scopes(),
            _ => 0,
        }
    }
}

/// The line of one include directive.
pub open spec fn directive_text(header: Seq<char>) -> Seq<char> {
    "#include "@ + header + "\n"@
}

/// The directives of `headers` in order.
pub open spec fn directives_text(headers: Seq<Seq<char>>) -> Seq<char>
    decreases headers.len(),
{
    if headers.len() == 0 {
        Seq::empty()
    } else {
        directives_text(headers.drop_last()) + directive_text(headers.last())
    }
}

/// The top-level declarations in order, a blank line before each.
pub open spec fn declarations_text(declarations: Seq<DeclarationView>) -> Seq<char>
    decreases declarations.len(),
{
    if declarations.len() == 0 {
        Seq::empty()
    } else {
        declarations_text(declarations.drop_last()) + "\n"@ + declarations.last().text(0)
    }
}

impl FileView {
    /// The directives, then the declarations.
    pub open spec fn text(self) -> Seq<char> {
        directives_text(self.includes) + declarations_text(self.declarations)
    }
}

/// The lines of a sequence of statements are those of its first part
/// followed by those of the rest.
pub proof fn lemma_statements_text_split(first: Seq<Seq<char>>, rest: Seq<Seq<char>>, depth: nat)
    ensures
        statements_text(first + rest, depth) == statements_text(first, depth)
            + statements_text(rest, depth),
    decreases rest.len(),
{
    if rest.len() == 0 {
        assert(first + rest =~= first);
    } else {
        assert((first + rest).drop_last() =~= first + rest.drop_last());
        lemma_statements_text_split(first, rest.drop_last(), depth);
    }
}

/// The text of a sequence of members is that of its first part followed by
/// that of the rest.
pub proof fn lemma_members_text_split(
    first: Seq<DeclarationView>,
    rest: Seq<DeclarationView>,
    depth: nat,
)
    ensures
        members_text(first + rest, depth) == members_text(first, depth) + members_text(rest, depth),
    decreases rest.len(),
{
    if rest.len() == 0 {
        assert(first + rest =~= first);
    } else {
        assert((first + rest).drop_last() =~= first + rest.drop_last());
        lemma_members_text_split(first, rest.drop_last(), depth);
    }
}

/// The text of a sequence of top-level declarations is that of its first
/// part followed by that of the rest.
pub proof fn lemma_declarations_text_split(
    first: Seq<DeclarationView>,
    rest: Seq<DeclarationView>,
)
    ensures
        declarations_text(first + rest) == declarations_text(first) + declarations_text(rest),
    decreases rest.len(),
{
    if rest.len() == 0 {
        assert(first + rest =~= first);
    } else {
        assert((first + rest).drop_last() =~= first + rest.drop_last());
        lemma_declarations_text_split(first, rest.drop_last());
    }
}

} // verus!
