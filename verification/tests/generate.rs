use cpp_generator::{
    generate, Declaration, File, LoweredComponent, LoweredItem, NativeItemType,
};

fn component(id: &str, class_name: &str, vtable: &str, properties: &[(&str, &str)]) -> LoweredComponent {
    LoweredComponent {
        id: id.to_string(),
        root_item: LoweredItem {
            native_type: NativeItemType {
                class_name: class_name.to_string(),
                vtable: vtable.to_string(),
            },
            init_properties: properties
                .iter()
                .map(|(name, value)| (name.to_string(), value.to_string()))
                .collect(),
        },
    }
}

fn constructor_statements(file: &File) -> Vec<String> {
    match &file.declarations[0] {
        Declaration::Struct(s) => match &s.members[1] {
            Declaration::Function(f) => f.statements.clone(),
            _ => panic!("the second member is not a function"),
        },
        _ => panic!("the first declaration is not a struct"),
    }
}

const FOO: &str = "#include <sixtyfps.h>\n\
\n\
struct Foo {\n\
\x20   sixtyfps::Bar root;\n\
\x20   Foo () {\n\
\x20       root.text = \"hello\";\n\
\x20       root.x = \"5\";\n\
\x20   }\n\
};\n\
\n\
sixtyfps::ItemTreeNode Foo_children[] = { sixtyfps::ItemTreeNode{0, &sixtyfps::bar_vt, 0, 0} };\n\
\n\
auto main () -> int {\n\
\x20   Foo component;\n\
\x20   static const sixtyfps::ComponentType componentType{ nullptr, nullptr, [](const sixtyfps::ComponentType*) -> const sixtyfps::ItemTreeNode* {return Foo_children; }  };\n\
\x20   sixtyfps::run(&component, &componentType);\n\
}\n";

#[test]
fn component_renders_as_a_whole_program() {
    let c = component("Foo", "Bar", "bar_vt", &[("text", "hello"), ("x", "5")]);
    assert_eq!(generate(&c).render(), FOO);
}

#[test]
fn parts_of_the_program_come_in_order() {
    let c = component("Foo", "Bar", "bar_vt", &[("text", "hello"), ("x", "5")]);
    let text = generate(&c).render();
    let parts = [
        "#include <sixtyfps.h>\n",
        "struct Foo {\n",
        "    sixtyfps::Bar root;\n",
        "    Foo () {\n",
        "root.text = \"hello\";\n",
        "root.x = \"5\";\n",
        "};\n",
        "Foo_children[]",
        "bar_vt",
        "main",
        "Foo component;",
        "Foo_children;",
        "sixtyfps::run(&component, &componentType);",
    ];
    let mut from = 0;
    for part in parts {
        let at = text[from..].find(part);
        assert!(at.is_some(), "{part} is missing after byte {from}");
        from += at.unwrap() + part.len();
    }
    assert_eq!(text.matches("root.").count(), 2);
}

#[test]
fn generated_file_has_the_header_and_three_declarations() {
    let c = component("Foo", "Bar", "bar_vt", &[("text", "hello"), ("x", "5")]);
    let file = generate(&c);
    assert_eq!(file.includes, vec!["<sixtyfps.h>".to_string()]);
    assert_eq!(file.declarations.len(), 3);
    match &file.declarations[0] {
        Declaration::Struct(s) => {
            assert_eq!(s.name, "Foo");
            assert_eq!(s.members.len(), 2);
            match &s.members[0] {
                Declaration::Var(v) => {
                    assert_eq!(v.ty, "sixtyfps::Bar");
                    assert_eq!(v.name, "root");
                    assert_eq!(v.init, None);
                }
                _ => panic!("the first member is not a variable"),
            }
            match &s.members[1] {
                Declaration::Function(f) => {
                    assert_eq!(f.name, "Foo");
                    assert_eq!(f.signature, "()");
                    assert!(f.is_constructor);
                    assert_eq!(
                        f.statements,
                        vec!["root.text = \"hello\";".to_string(), "root.x = \"5\";".to_string()]
                    );
                }
                _ => panic!("the second member is not a function"),
            }
        }
        _ => panic!("the first declaration is not a struct"),
    }
    match &file.declarations[1] {
        Declaration::Var(v) => {
            assert_eq!(v.ty, "sixtyfps::ItemTreeNode");
            assert_eq!(v.name, "Foo_children[]");
            assert_eq!(
                v.init,
                Some("{ sixtyfps::ItemTreeNode{0, &sixtyfps::bar_vt, 0, 0} }".to_string())
            );
        }
        _ => panic!("the second declaration is not a variable"),
    }
    match &file.declarations[2] {
        Declaration::Function(f) => {
            assert_eq!(f.name, "main");
            assert_eq!(f.signature, "() -> int");
            assert!(!f.is_constructor);
            assert_eq!(
                f.statements,
                vec![
                    "Foo component;".to_string(),
                    "static const sixtyfps::ComponentType componentType{ nullptr, nullptr, [](const sixtyfps::ComponentType*) -> const sixtyfps::ItemTreeNode* {return Foo_children; }  };".to_string(),
                    "sixtyfps::run(&component, &componentType);".to_string(),
                ]
            );
        }
        _ => panic!("the third declaration is not a function"),
    }
}

#[test]
fn component_without_properties_keeps_its_constructor() {
    let c = component("Empty", "Rectangle", "RectangleVTable", &[]);
    let file = generate(&c);
    assert_eq!(constructor_statements(&file), Vec::<String>::new());
    let text = file.render();
    assert!(text.contains("struct Empty {\n    sixtyfps::Rectangle root;\n    Empty () {\n    }\n};\n"));
    assert_eq!(
        text,
        "#include <sixtyfps.h>\n\
\n\
struct Empty {\n\
\x20   sixtyfps::Rectangle root;\n\
\x20   Empty () {\n\
\x20   }\n\
};\n\
\n\
sixtyfps::ItemTreeNode Empty_children[] = { sixtyfps::ItemTreeNode{0, &sixtyfps::RectangleVTable, 0, 0} };\n\
\n\
auto main () -> int {\n\
\x20   Empty component;\n\
\x20   static const sixtyfps::ComponentType componentType{ nullptr, nullptr, [](const sixtyfps::ComponentType*) -> const sixtyfps::ItemTreeNode* {return Empty_children; }  };\n\
\x20   sixtyfps::run(&component, &componentType);\n\
}\n"
    );
}

#[test]
fn properties_are_assigned_in_the_order_given() {
    let c = component("C", "Text", "TextVTable", &[("z", "1"), ("a", "2"), ("m", "3")]);
    assert_eq!(
        constructor_statements(&generate(&c)),
        vec![
            "root.z = \"1\";".to_string(),
            "root.a = \"2\";".to_string(),
            "root.m = \"3\";".to_string(),
        ]
    );
    let text = generate(&c).render();
    let z = text.find("root.z").unwrap();
    let a = text.find("root.a").unwrap();
    let m = text.find("root.m").unwrap();
    assert!(z < a && a < m);
}

#[test]
fn repeated_properties_are_all_assigned() {
    let c = component("C", "Text", "TextVTable", &[("x", "1"), ("x", "2")]);
    assert_eq!(
        constructor_statements(&generate(&c)),
        vec!["root.x = \"1\";".to_string(), "root.x = \"2\";".to_string()]
    );
}

#[test]
fn values_are_not_escaped() {
    let c = component("C", "Text", "TextVTable", &[("text", "say \"hi\"\\n")]);
    assert_eq!(
        constructor_statements(&generate(&c)),
        vec!["root.text = \"say \"hi\"\\n\";".to_string()]
    );
}

#[test]
fn identifier_is_not_checked() {
    let c = component("class", "", "", &[]);
    let text = generate(&c).render();
    assert!(text.contains("struct class {\n    sixtyfps:: root;\n    class () {\n    }\n};\n"));
    assert!(text.contains("class_children[] = { sixtyfps::ItemTreeNode{0, &sixtyfps::, 0, 0} };\n"));
}

#[test]
fn generating_twice_gives_the_same_text() {
    let a = component("Foo", "Bar", "bar_vt", &[("text", "hello"), ("x", "5")]);
    let b = component("Foo", "Bar", "bar_vt", &[("text", "hello"), ("x", "5")]);
    assert_eq!(generate(&a).render(), generate(&b).render());
    assert_eq!(generate(&a).render(), generate(&a).render());
}
