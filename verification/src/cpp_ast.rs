//! The declaration tree, and its view: the same tree with its strings as
//! sequences of characters and its vectors as sequences.

use vstd::prelude::*;

verus! {

/// A variable declaration: a type, a name and an optional initializer.
#[derive(Debug)]
pub struct Var {
    pub ty: String,
    pub name: String,
    pub init: Option<String>,
}

/// A function: a name, the raw text of its parameter list and return type,
/// and its statements, each one a line of finished text.
#[derive(Debug)]
pub struct Function {
    pub name: String,
    /// (...) -> ...
    pub signature: String,
    pub is_constructor: bool,
    pub statements: Vec<String>,
}

/// A struct: a name and its members in order.
#[derive(Debug)]
pub struct Struct {
    pub name: String,
    pub members: Vec<Declaration>,
}

/// One declaration of the tree.
#[derive(Debug)]
pub enum Declaration {
    Struct(Struct),
    Function(Function),
    Var(Var),
}

/// A source file: the headers it includes and its top-level declarations,
/// both in the order they are printed in.
#[derive(Debug)]
pub struct File {
    pub includes: Vec<String>,
    pub declarations: Vec<Declaration>,
}

/// What a variable holds, as text.
#[verifier::ext_equal]
pub struct VarView {
    pub ty: Seq<char>,
    pub name: Seq<char>,
    pub init: Option<Seq<char>>,
}

/// What a function holds, as text.
#[verifier::ext_equal]
pub struct FunctionView {
    pub name: Seq<char>,
    pub signature: Seq<char>,
    pub is_constructor: bool,
    pub statements: Seq<Seq<char>>,
}

/// What a struct holds: its name and the views of its members.
#[verifier::ext_equal]
pub struct StructView {
    pub name: Seq<char>,
    pub members: Seq<DeclarationView>,
}

/// What a declaration holds: the view of the struct, function or variable
/// that it is.
#[verifier::ext_equal]
pub enum DeclarationView {
    Struct(StructView),
    Function(FunctionView),
    Var(VarView),
}

/// What a file holds: its headers as text and the views of its
/// declarations.
#[verifier::ext_equal]
pub struct FileView {
    pub includes: Seq<Seq<char>>,
    pub declarations: Seq<DeclarationView>,
}

impl View for Var {
    type V = VarView;

    open spec fn view(&self) -> VarView {
        VarView {
            ty: self.ty@,
            name: self.name@,
            init: match self.init {
                Some(i) => Some(i@),
                None => None,
            },
        }
    }
}

impl View for Function {
    type V = FunctionView;

    open spec fn view(&self) -> FunctionView {
        FunctionView {
            name: self.name@,
            signature: self.signature@,
            is_constructor: self.is_constructor,
            statements: string_views(self.statements@),
        }
    }
}

/// The views of `declarations`, in the same order.
pub open spec fn declaration_views(declarations: Seq<Declaration>) -> Seq<DeclarationView>
    decreases declarations,
{
    Seq::new(
        declarations.len(),
        |i: int|
            if 0 <= i < declarations.len() {
                declarations[i]@
            } else {
                arbitrary()
            },
    )
}

/// The views of `strings`, in the same order.
pub open spec fn string_views(strings: Seq<String>) -> Seq<Seq<char>> {
    Seq::new(strings.len(), |i: int| strings[i]@)
}

impl View for Struct {
    type V = StructView;

    open spec fn view(&self) -> StructView
        decreases self,
    {
        StructView { name: self.name@, members: declaration_views(self.members@) }
    }
}

impl View for Declaration {
    type V = DeclarationView;

    open spec fn view(&self) -> DeclarationView
        decreases self,
    {
        match self {
            Declaration::Struct(s) => DeclarationView::Struct(s@),
            Declaration::Function(f) => DeclarationView::Function(f@),
            Declaration::Var(v) => DeclarationView::Var(v@),
        }
    }
}

impl View for File {
    type V = FileView;

    open spec fn view(&self) -> FileView {
        FileView {
            includes: string_views(self.includes@),
            declarations: declaration_views(self.declarations@),
        }
    }
}

impl Default for Var {
    /// A variable with an empty type and name, and no initializer.
    fn default() -> (var: Var)
        ensures
            var@ == (VarView { ty: Seq::empty(), name: Seq::empty(), init: None }),
    {
        Var { ty: String::new(), name: String::new(), init: None }
    }
}

impl Default for Function {
    /// A function with an empty name and signature and no statements, not a
    /// constructor.
    fn default() -> (function: Function)
        ensures
            function@ == (FunctionView {
                name: Seq::empty(),
                signature: Seq::empty(),
                is_constructor: false,
                statements: Seq::empty(),
            }),
    {
        Function {
            name: String::new(),
            signature: String::new(),
            is_constructor: false,
            statements: Vec::new(),
        }
    }
}

impl Default for Struct {
    /// A struct with an empty name and no members.
    fn default() -> (s: Struct)
        ensures
            s@ == (StructView { name: Seq::empty(), members: Seq::empty() }),
    {
        let s = Struct { name: String::new(), members: Vec::new() };
        assert(declaration_views(s.members@) =~= Seq::empty());
        s
    }
}

impl Default for File {
    /// A file with no headers and no declarations.
    fn default() -> (file: File)
        ensures
            file@ == (FileView { includes: Seq::empty(), declarations: Seq::empty() }),
    {
        File { includes: Vec::new(), declarations: Vec::new() }
    }
}

} // verus!
