//! What holds of rendering and of generation, whatever the input.

use vstd::prelude::*;
use crate::cpp_ast::{DeclarationView, File, FileView, FunctionView};
use crate::generator::{
    assignment_text, assignments, component_struct, constructor, entry_point, generated,
    item_tree, root_member,
};
use crate::layout::{
    declarations_text, directive_text, directives_text, lemma_declarations_text_split,
    lemma_members_text_split, lemma_statements_text_split, members_text, statement_text,
    statements_text,
};
use crate::lower::LoweredComponentView;
use crate::text::indentation;

verus! {

/// A file without headers and without declarations renders as the empty
/// text.
pub proof fn lemma_empty_file_renders_empty(file: FileView)
    requires
        file.includes.len() == 0,
        file.declarations.len() == 0,
    ensures
        file.text() == Seq::<char>::empty(),
{
}

/// Rendering is a function of what a file holds: where two files hold the
/// same headers and declarations, what `render` gives for the one and for the
/// other is the same text, character for character and byte for byte.
pub proof fn lemma_rendering_is_deterministic(a: File, b: File, text_a: String, text_b: String)
    requires
        a@ == b@,
        text_a@ == a@.text(),
        text_b@ == b@.text(),
    ensures
        text_a@ == text_b@,
        vstd::utf8::encode_utf8(text_a@) == vstd::utf8::encode_utf8(text_b@),
{
}

/// Top-level declarations are rendered in their order: the text of a file is
/// the text of the file cut off before its `i`-th declaration, then a blank
/// line and that declaration, then the declarations after it.
pub proof fn lemma_declarations_render_in_order(file: FileView, i: int)
    requires
        0 <= i < file.declarations.len(),
    ensures
        file.text() == (FileView {
            includes: file.includes,
            declarations: file.declarations.take(i),
        }).text()
            + "\n"@ + file.declarations[i].text(0)
            + declarations_text(file.declarations.skip(i + 1)),
{
    let before = file.declarations.take(i);
    let this = seq![file.declarations[i]];
    let after = file.declarations.skip(i + 1);
    assert(file.declarations =~= before + this + after);
    lemma_declarations_text_split(before + this, after);
    lemma_declarations_text_split(before, this);
    assert(this.drop_last() =~= Seq::<DeclarationView>::empty());
    assert(declarations_text(this) =~= "\n"@ + file.declarations[i].text(0)) by {
        reveal_with_fuel(declarations_text, 2);
    }
}

/// Members are rendered in their order: the text of a sequence of members is
/// the text of those before the `i`-th, then the `i`-th, then those after it.
pub proof fn lemma_members_render_in_order(members: Seq<DeclarationView>, i: int, depth: nat)
    requires
        0 <= i < members.len(),
    ensures
        members_text(members, depth) == members_text(members.take(i), depth)
            + members[i].text(depth)
            + members_text(members.skip(i + 1), depth),
{
    let before = members.take(i);
    let this = seq![members[i]];
    let after = members.skip(i + 1);
    assert(members =~= before + this + after);
    lemma_members_text_split(before + this, after, depth);
    lemma_members_text_split(before, this, depth);
    assert(this.drop_last() =~= Seq::<DeclarationView>::empty());
    assert(members_text(this, depth) =~= members[i].text(depth)) by {
        reveal_with_fuel(members_text, 2);
    }
}

/// Statements are rendered in their order: the lines of a sequence of
/// statements are the lines of those before the `i`-th, then the line of the
/// `i`-th, then the lines of those after it.
pub proof fn lemma_statements_render_in_order(statements: Seq<Seq<char>>, i: int, depth: nat)
    requires
        0 <= i < statements.len(),
    ensures
        statements_text(statements, depth) == statements_text(statements.take(i), depth)
            + statement_text(statements[i], depth)
            + statements_text(statements.skip(i + 1), depth),
{
    let before = statements.take(i);
    let this = seq![statements[i]];
    let after = statements.skip(i + 1);
    assert(statements =~= before + this + after);
    lemma_statements_text_split(before + this, after, depth);
    lemma_statements_text_split(before, this, depth);
    assert(this.drop_last() =~= Seq::<Seq<char>>::empty());
    assert(statements_text(this, depth) =~= statement_text(statements[i], depth)) by {
        reveal_with_fuel(statements_text, 2);
    }
}

/// The generated file holds the component's struct, then its item tree, then
/// the entry point, and the struct holds the root item, then the
/// constructor.
pub proof fn lemma_generated_order(component: LoweredComponentView)
    ensures
        generated(component).includes == seq!["<sixtyfps.h>"@],
        generated(component).declarations.len() == 3,
        generated(component).declarations[0] == DeclarationView::Struct(
            component_struct(component),
        ),
        generated(component).declarations[1] == DeclarationView::Var(item_tree(component)),
        generated(component).declarations[2] == DeclarationView::Function(
            entry_point(component),
        ),
        component_struct(component).members.len() == 2,
        component_struct(component).members[1] == DeclarationView::Function(
            constructor(component),
        ),
{
}

/// The text of the generated file: the directive for the runtime's header,
/// then the component's struct, its item tree and the entry point, each after
/// a blank line and at depth 0.
pub proof fn lemma_generated_text(component: LoweredComponentView)
    ensures
        generated(component).text() == directive_text("<sixtyfps.h>"@) + "\n"@
            + component_struct(component).text(0) + "\n"@ + item_tree(component).text(0) + "\n"@
            + entry_point(component).text(0),
{
    let file = generated(component);
    let headers = file.includes;
    assert(headers.drop_last() =~= Seq::<Seq<char>>::empty());
    assert(directives_text(headers) =~= directive_text("<sixtyfps.h>"@)) by {
        reveal_with_fuel(directives_text, 2);
    }
    let top = file.declarations;
    let two = top.drop_last();
    let one = two.drop_last();
    assert(two =~= seq![top[0], top[1]]);
    assert(one =~= seq![top[0]]);
    assert(one.drop_last() =~= Seq::<DeclarationView>::empty());
    assert(declarations_text(one) =~= "\n"@ + top[0].text(0)) by {
        reveal_with_fuel(declarations_text, 2);
    }
    assert(declarations_text(two) =~= declarations_text(one) + "\n"@ + top[1].text(0));
    assert(declarations_text(top) =~= declarations_text(two) + "\n"@ + top[2].text(0));
    assert(top[0].text(0) == component_struct(component).text(0));
    assert(top[1].text(0) == item_tree(component).text(0));
    assert(top[2].text(0) == entry_point(component).text(0));
}

/// The text of the component's struct at `depth`: its opening line, then the
/// root item and after it the constructor, both one level deeper, then the
/// closing line.
pub proof fn lemma_component_struct_text(component: LoweredComponentView, depth: nat)
    ensures
        component_struct(component).text(depth) == indentation(depth) + "struct "@ + component.id
            + " {\n"@
            + root_member(component).text(depth + 1)
            + constructor(component).text(depth + 1)
            + indentation(depth) + "};\n"@,
{
    let members = component_struct(component).members;
    let one = members.drop_last();
    assert(one =~= seq![members[0]]);
    assert(one.drop_last() =~= Seq::<DeclarationView>::empty());
    assert(members_text(one, depth + 1) =~= members[0].text(depth + 1)) by {
        reveal_with_fuel(members_text, 2);
    }
    assert(members_text(members, depth + 1) =~= members_text(one, depth + 1)
        + members[1].text(depth + 1));
    assert(members[0].text(depth + 1) == root_member(component).text(depth + 1));
    assert(members[1].text(depth + 1) == constructor(component).text(depth + 1));
}

/// The constructor assigns the properties in the order they were given in:
/// it has one statement for each, and its `i`-th statement assigns the
/// `i`-th property.
pub proof fn lemma_constructor_follows_properties(component: LoweredComponentView, i: int)
    requires
        0 <= i < component.root_item.init_properties.len(),
    ensures
        constructor(component).statements.len() == component.root_item.init_properties.len(),
        constructor(component).statements[i] == assignment_text(
            component.root_item.init_properties[i],
        ),
{
}

/// The assignments are rendered in the order of the properties: the text of
/// the constructor is its opening line, the assignments of the properties
/// before the `i`-th, the assignment of the `i`-th, those of the properties
/// after it, and the closing brace.
pub proof fn lemma_assignments_render_in_order(component: LoweredComponentView, i: int, depth: nat)
    requires
        0 <= i < component.root_item.init_properties.len(),
    ensures
        constructor(component).text(depth) == indentation(depth) + component.id + " "@ + "()"@
            + " {\n"@
            + statements_text(assignments(component.root_item.init_properties.take(i)), depth)
            + statement_text(assignment_text(component.root_item.init_properties[i]), depth)
            + statements_text(assignments(component.root_item.init_properties.skip(i + 1)), depth)
            + indentation(depth) + "}\n"@,
{
    let properties = component.root_item.init_properties;
    let statements = constructor(component).statements;
    assert(statements.take(i) =~= assignments(properties.take(i)));
    assert(statements.skip(i + 1) =~= assignments(properties.skip(i + 1)));
    lemma_statements_render_in_order(statements, i, depth);
}

/// A component without initial properties still has its constructor, with no
/// statement: an opening line and a closing brace.
pub proof fn lemma_constructor_without_properties(component: LoweredComponentView, depth: nat)
    requires
        component.root_item.init_properties.len() == 0,
    ensures
        component_struct(component).members.len() == 2,
        component_struct(component).members[1] == DeclarationView::Function(
            constructor(component),
        ),
        constructor(component) == (FunctionView {
            name: component.id,
            signature: "()"@,
            is_constructor: true,
            statements: Seq::empty(),
        }),
        constructor(component).text(depth) == indentation(depth) + component.id + " "@ + "()"@
            + " {\n"@ + indentation(depth) + "}\n"@,
{
    assert(constructor(component).statements =~= Seq::<Seq<char>>::empty());
}

} // verus!
