//! The generator: from a lowered component to the file that declares its
//! struct, its item tree and the program's entry point.

use vstd::prelude::*;
use vstd::string::*;
use crate::cpp_ast::{
    declaration_views, string_views, Declaration, DeclarationView, File, FileView, Function,
    FunctionView, Struct, StructView, Var, VarView,
};
use crate::lower::{property_views, LoweredComponent, LoweredComponentView};

verus! {

/// The statement that assigns the initial value of a property, as a string
/// literal, to that property of the root item.
pub open spec fn assignment_text(property: (Seq<char>, Seq<char>)) -> Seq<char> {
    "root."@ + property.0 + " = \""@ + property.1 + "\";"@
}

/// One assignment for each property, in the properties' order.
pub open spec fn assignments(properties: Seq<(Seq<char>, Seq<char>)>) -> Seq<Seq<char>> {
    Seq::new(properties.len(), |i: int| assignment_text(properties[i]))
}

/// The root item as a member of the component's struct.
pub open spec fn root_member(component: LoweredComponentView) -> VarView {
    VarView {
        ty: "sixtyfps::"@ + component.root_item.native_type.class_name,
        name: "root"@,
        init: None,
    }
}

/// The constructor of the component's struct: it assigns the initial
/// properties.
pub open spec fn constructor(component: LoweredComponentView) -> FunctionView {
    FunctionView {
        name: component.id,
        signature: "()"@,
        is_constructor: true,
        statements: assignments(component.root_item.init_properties),
    }
}

/// The struct of the component: the root item and the constructor.
pub open spec fn component_struct(component: LoweredComponentView) -> StructView {
    StructView {
        name: component.id,
        members: seq![
            DeclarationView::Var(root_member(component)),
            DeclarationView::Function(constructor(component)),
        ],
    }
}

/// The item tree of the component: an array of one node, which refers to
/// the vtable of the root item and has zero in its other fields.
pub open spec fn item_tree(component: LoweredComponentView) -> VarView {
    VarView {
        ty: "sixtyfps::ItemTreeNode"@,
        name: component.id + "_children[]"@,
        init: Some(
            "{ sixtyfps::ItemTreeNode{0, &sixtyfps::"@ + component.root_item.native_type.vtable
                + ", 0, 0} }"@,
        ),
    }
}

/// The statement of the entry point that declares the component type, with
/// the accessor of the item tree behind two null hooks.
pub open spec fn component_type_text(component: LoweredComponentView) -> Seq<char> {
    "static const sixtyfps::ComponentType componentType{ nullptr, nullptr, [](const sixtyfps::ComponentType*) -> const sixtyfps::ItemTreeNode* {return "@
        + component.id + "_children; }  };"@
}

/// The entry point of the program: it makes the component, declares its type
/// and runs it.
pub open spec fn entry_point(component: LoweredComponentView) -> FunctionView {
    FunctionView {
        name: "main"@,
        signature: "() -> int"@,
        is_constructor: false,
        statements: seq![
            component.id + " component;"@,
            component_type_text(component),
            "sixtyfps::run(&component, &componentType);"@,
        ],
    }
}

/// The file generated for a component: the runtime's header, the component's
/// struct, its item tree and the entry point, in this order.
pub open spec fn generated(component: LoweredComponentView) -> FileView {
    FileView {
        includes: seq!["<sixtyfps.h>"@],
        declarations: seq![
            DeclarationView::Struct(component_struct(component)),
            DeclarationView::Var(item_tree(component)),
            DeclarationView::Function(entry_point(component)),
        ],
    }
}

/// `first` and `second` in one string.
fn concat(first: &str, second: &str) -> (text: String)
    ensures
        text@ == first@ + second@,
{
    let mut text = String::from_str(first);
    text.append(second);
    text
}

/// `before`, `middle` and `after` in one string.
fn enclose(before: &str, middle: &str, after: &str) -> (text: String)
    ensures
        text@ == before@ + middle@ + after@,
{
    let mut text = String::from_str(before);
    text.append(middle);
    text.append(after);
    text
}

/// The assignment of each property, in the properties' order.
fn assignment_statements(properties: &Vec<(String, String)>) -> (statements: Vec<String>)
    ensures
        string_views(statements@) == assignments(property_views(properties@)),
{
    let mut statements: Vec<String> = Vec::new();
    let n = properties.len();
    let mut i: usize = 0;
    while i < n
        invariant
            i <= n,
            n == properties.len(),
            statements@.len() == i,
            forall|k: int|
                0 <= k < i ==> (#[trigger] statements@[k])@ == assignment_text(
                    (properties@[k].0@, properties@[k].1@),
                ),
        decreases n - i,
    {
        let mut statement = enclose("root.", properties[i].0.as_str(), " = \"");
        statement.append(properties[i].1.as_str());
        statement.append("\";");
        statements.push(statement);
        i = i + 1;
    }
    statements
}

/// Generates the file for `component`.
pub fn generate(component: &LoweredComponent) -> (file: File)
    ensures
        file@ == generated(component@),
{
    let mut out = File::default();
    assert(out.includes@.len() == out@.includes.len() && out.declarations@.len()
        == out@.declarations.len());

    out.includes.push(String::from_str("<sixtyfps.h>"));

    let root = Declaration::Var(
        Var {
            ty: concat("sixtyfps::", component.root_item.native_type.class_name.as_str()),
            name: String::from_str("root"),
            init: None,
        },
    );
    let constructor = Declaration::Function(
        Function {
            name: component.id.clone(),
            signature: String::from_str("()"),
            is_constructor: true,
            statements: assignment_statements(&component.root_item.init_properties),
        },
    );
    assert(root@ =~= DeclarationView::Var(root_member(component@)));
    assert(constructor@ =~= DeclarationView::Function(self::constructor(component@)));
    let mut members: Vec<Declaration> = Vec::new();
    members.push(root);
    members.push(constructor);
    assert(declaration_views(members@) =~= self::component_struct(component@).members);
    let component_struct = Declaration::Struct(Struct { name: component.id.clone(), members });
    assert(component_struct@ =~~= DeclarationView::Struct(self::component_struct(component@)));
    out.declarations.push(component_struct);

    let item_tree = Declaration::Var(
        Var {
            ty: String::from_str("sixtyfps::ItemTreeNode"),
            name: concat(component.id.as_str(), "_children[]"),
            init: Some(
                enclose(
                    "{ sixtyfps::ItemTreeNode{0, &sixtyfps::",
                    component.root_item.native_type.vtable.as_str(),
                    ", 0, 0} }",
                ),
            ),
        },
    );
    assert(item_tree@ =~= DeclarationView::Var(self::item_tree(component@)));
    out.declarations.push(item_tree);

    let mut statements: Vec<String> = Vec::new();
    statements.push(concat(component.id.as_str(), " component;"));
    statements.push(
        enclose(
            "static const sixtyfps::ComponentType componentType{ nullptr, nullptr, [](const sixtyfps::ComponentType*) -> const sixtyfps::ItemTreeNode* {return ",
            component.id.as_str(),
            "_children; }  };",
        ),
    );
    statements.push(String::from_str("sixtyfps::run(&component, &componentType);"));
    let entry_point = Declaration::Function(
        Function {
            name: String::from_str("main"),
            signature: String::from_str("() -> int"),
            is_constructor: false,
            statements,
        },
    );
    assert(entry_point@ =~~= DeclarationView::Function(self::entry_point(component@)));
    out.declarations.push(entry_point);
    assert(out@ =~~= generated(component@));
    out
}

} // verus!
