use eml_compiler::ast::AttributeNode;
use eml_compiler::ast::ElementNode;
use eml_compiler::ast::Expr;
use eml_compiler::ast::MarkupNode;
use eml_compiler::attrs::compile_attr;
use eml_compiler::attrs::compile_with_commands;
use eml_compiler::plan::AttrValue;
use eml_compiler::plan::BuildOp;
use eml_compiler::plan::ChildSource;
use eml_compiler::plan::CompileError;
use eml_compiler::plan::ComponentInsert;
use eml_compiler::tree::compile_element;
use eml_compiler::tree::compile_tree;

fn ident(name: &str, span: usize) -> Expr {
    Expr::Ident { name: String::from(name), span }
}

fn opaque(id: usize, span: usize) -> Expr {
    Expr::Opaque { id, span }
}

fn attr(key: &str, key_span: usize, value: Option<Expr>) -> MarkupNode {
    MarkupNode::Attribute(AttributeNode { key: String::from(key), key_span, value })
}

fn attr_node(key: &str, key_span: usize, value: Option<Expr>) -> AttributeNode {
    AttributeNode { key: String::from(key), key_span, value }
}

fn elem(name: &str, attributes: Vec<MarkupNode>, children: Vec<MarkupNode>) -> ElementNode {
    ElementNode { name: String::from(name), name_span: 0, attributes, children }
}

#[test]
fn attribute_without_value_is_empty() {
    let r = compile_attr(&attr_node("hidden", 7, None)).unwrap();
    assert_eq!(
        r,
        vec![BuildOp::SetAttribute { name: String::from("hidden"), value: AttrValue::Empty }]
    );
}

#[test]
fn attribute_with_value_passes_expression_through() {
    let r = compile_attr(&attr_node("width", 3, Some(opaque(9, 4)))).unwrap();
    assert_eq!(
        r,
        vec![BuildOp::SetAttribute {
            name: String::from("width"),
            value: AttrValue::Expr(opaque(9, 4)),
        }]
    );
}

#[test]
fn with_uppercase_identifier_inserts_default() {
    let r = compile_attr(&attr_node("with", 1, Some(ident("Foo", 2)))).unwrap();
    assert_eq!(
        r,
        vec![BuildOp::InsertComponents {
            inserts: vec![ComponentInsert::DefaultOf { name: String::from("Foo"), span: 2 }],
        }]
    );
}

#[test]
fn with_lowercase_identifier_inserts_value() {
    let r = compile_with_commands(&ident("foo", 5)).unwrap();
    assert_eq!(r, vec![ComponentInsert::Value { name: String::from("foo"), span: 5 }]);
}

#[test]
fn with_tuple_inserts_in_declaration_order() {
    let tuple = Expr::Tuple { elems: vec![ident("Foo", 10), ident("bar", 11)], span: 9 };
    let r = compile_with_commands(&tuple).unwrap();
    assert_eq!(
        r,
        vec![
            ComponentInsert::DefaultOf { name: String::from("Foo"), span: 10 },
            ComponentInsert::Value { name: String::from("bar"), span: 11 },
        ]
    );
}

#[test]
fn with_empty_tuple_inserts_nothing() {
    let tuple = Expr::Tuple { elems: vec![], span: 4 };
    let r = compile_attr(&attr_node("with", 3, Some(tuple))).unwrap();
    assert_eq!(r, vec![BuildOp::InsertComponents { inserts: vec![] }]);
}

#[test]
fn with_non_identifier_expression_is_an_error() {
    let r = compile_with_commands(&opaque(0, 42));
    assert_eq!(r, Err(CompileError::InvalidComponentDeclaration { span: 42 }));
}

#[test]
fn with_non_identifier_tuple_element_is_an_error() {
    let tuple = Expr::Tuple { elems: vec![ident("Foo", 1), opaque(0, 33)], span: 0 };
    let r = compile_with_commands(&tuple);
    assert_eq!(r, Err(CompileError::InvalidComponentDeclaration { span: 33 }));
}

#[test]
fn with_nested_tuple_element_is_an_error() {
    let inner = Expr::Tuple { elems: vec![], span: 21 };
    let tuple = Expr::Tuple { elems: vec![inner], span: 20 };
    let r = compile_with_commands(&tuple);
    assert_eq!(r, Err(CompileError::InvalidComponentDeclaration { span: 21 }));
}

#[test]
fn with_identifier_starting_oddly_is_an_error() {
    let r = compile_with_commands(&ident("_foo", 8));
    assert_eq!(r, Err(CompileError::InvalidComponentDeclaration { span: 8 }));
}

#[test]
fn spawn_comes_first_without_overrides() {
    let e = elem("div", vec![attr("hidden", 1, None)], vec![]);
    let b = compile_element(&e, true).unwrap();
    match b {
        BuildOp::Build { tag, ops, .. } => {
            assert_eq!(tag, String::from("div"));
            assert_eq!(ops.len(), 2);
            assert_eq!(ops[0], BuildOp::SpawnEntity { explicit_parent: None });
            assert!(matches!(ops[1], BuildOp::SetAttribute { .. }));
        }
        other => panic!("expected a build, got {:?}", other),
    }
}

#[test]
fn root_without_override_does_not_spawn() {
    let e = elem("body", vec![attr("hidden", 1, None)], vec![]);
    let b = compile_tree(&e).unwrap();
    match b {
        BuildOp::Build { tag, ops, .. } => {
            assert_eq!(tag, String::from("body"));
            assert_eq!(ops.len(), 1);
            assert!(matches!(ops[0], BuildOp::SetAttribute { .. }));
        }
        other => panic!("expected a build, got {:?}", other),
    }
}

#[test]
fn empty_element_compiles_to_spawn_only() {
    let e = elem("span", vec![], vec![]);
    let b = compile_element(&e, true).unwrap();
    assert_eq!(
        b,
        BuildOp::Build {
            tag: String::from("span"),
            tag_span: 0,
            ops: vec![BuildOp::SpawnEntity { explicit_parent: None }],
        }
    );
}

#[test]
fn entity_attribute_overrides_the_spawn() {
    let e = elem("div", vec![attr("entity", 2, Some(opaque(0, 3)))], vec![]);
    let b = compile_element(&e, true).unwrap();
    assert_eq!(
        b,
        BuildOp::Build {
            tag: String::from("div"),
            tag_span: 0,
            ops: vec![BuildOp::SpawnEntity { explicit_parent: Some(opaque(0, 3)) }],
        }
    );
}

#[test]
fn braced_block_overrides_the_spawn() {
    let e = elem("div", vec![MarkupNode::Block { value: opaque(5, 6) }], vec![]);
    let b = compile_element(&e, true).unwrap();
    assert_eq!(
        b,
        BuildOp::Build {
            tag: String::from("div"),
            tag_span: 0,
            ops: vec![BuildOp::SpawnEntity { explicit_parent: Some(opaque(5, 6)) }],
        }
    );
}

#[test]
fn block_then_entity_attribute_is_a_duplicate() {
    let e = elem(
        "div",
        vec![
            MarkupNode::Block { value: opaque(0, 10) },
            attr("entity", 20, Some(opaque(1, 21))),
        ],
        vec![],
    );
    let r = compile_element(&e, true);
    assert_eq!(r, Err(CompileError::DuplicateEntityDeclaration { span: 20 }));
}

#[test]
fn entity_attribute_then_block_is_a_duplicate() {
    let e = elem(
        "div",
        vec![
            attr("entity", 20, Some(opaque(1, 21))),
            MarkupNode::Block { value: opaque(0, 10) },
        ],
        vec![],
    );
    let r = compile_element(&e, false);
    assert_eq!(r, Err(CompileError::DuplicateEntityDeclaration { span: 10 }));
}

#[test]
fn two_braced_blocks_are_a_duplicate() {
    let e = elem(
        "div",
        vec![
            MarkupNode::Block { value: opaque(0, 10) },
            MarkupNode::Block { value: opaque(1, 11) },
        ],
        vec![],
    );
    let r = compile_element(&e, true);
    assert_eq!(r, Err(CompileError::DuplicateEntityDeclaration { span: 11 }));
}

#[test]
fn entity_attribute_without_value_is_an_error() {
    let e = elem("div", vec![attr("entity", 13, None)], vec![]);
    let r = compile_element(&e, true);
    assert_eq!(r, Err(CompileError::MissingEntityValue { span: 13 }));
}

#[test]
fn attribute_order_is_preserved() {
    let e = elem(
        "div",
        vec![
            attr("a", 1, None),
            attr("with", 2, Some(ident("Foo", 3))),
            attr("a", 4, None),
        ],
        vec![],
    );
    let b = compile_element(&e, false).unwrap();
    match b {
        BuildOp::Build { ops, .. } => {
            assert_eq!(ops.len(), 3);
            assert!(matches!(ops[0], BuildOp::SetAttribute { .. }));
            assert!(matches!(ops[1], BuildOp::InsertComponents { .. }));
            assert!(matches!(ops[2], BuildOp::SetAttribute { .. }));
        }
        other => panic!("expected a build, got {:?}", other),
    }
}

#[test]
fn child_operations_keep_declaration_order() {
    let e = elem(
        "div",
        vec![],
        vec![
            MarkupNode::Text { value: String::from("A"), span: 1 },
            MarkupNode::Element(elem("img", vec![], vec![])),
            MarkupNode::Block { value: opaque(7, 3) },
            MarkupNode::Text { value: String::from("B"), span: 4 },
        ],
    );
    let b = compile_element(&e, true).unwrap();
    match b {
        BuildOp::Build { ops, .. } => {
            assert_eq!(ops.len(), 5);
            assert_eq!(ops[0], BuildOp::SpawnEntity { explicit_parent: None });
            assert_eq!(
                ops[1],
                BuildOp::AppendChild {
                    child: ChildSource::InlineText { text: String::from("A"), span: 1 },
                }
            );
            match &ops[2] {
                BuildOp::AppendChild { child: ChildSource::Built(inner) } => match &**inner {
                    BuildOp::Build { tag, ops: inner_ops, .. } => {
                        assert_eq!(tag, &String::from("img"));
                        assert_eq!(
                            inner_ops,
                            &vec![BuildOp::SpawnEntity { explicit_parent: None }]
                        );
                    }
                    other => panic!("expected a nested build, got {:?}", other),
                },
                other => panic!("expected an appended build, got {:?}", other),
            }
            assert_eq!(ops[3], BuildOp::ExpandDynamicChildren { block: opaque(7, 3) });
            assert_eq!(
                ops[4],
                BuildOp::AppendChild {
                    child: ChildSource::InlineText { text: String::from("B"), span: 4 },
                }
            );
        }
        other => panic!("expected a build, got {:?}", other),
    }
}

#[test]
fn error_in_a_child_element_propagates() {
    let bad = elem("img", vec![attr("with", 1, Some(opaque(0, 50)))], vec![]);
    let e = elem("div", vec![], vec![MarkupNode::Element(bad)]);
    let r = compile_element(&e, true);
    assert_eq!(r, Err(CompileError::InvalidComponentDeclaration { span: 50 }));
}

#[test]
fn unknown_node_kinds_are_ignored() {
    let e = elem(
        "div",
        vec![MarkupNode::Other { span: 1 }, attr("a", 2, None)],
        vec![MarkupNode::Other { span: 3 }],
    );
    let b = compile_element(&e, false).unwrap();
    match b {
        BuildOp::Build { ops, .. } => {
            assert_eq!(ops.len(), 1);
            assert!(matches!(ops[0], BuildOp::SetAttribute { .. }));
        }
        other => panic!("expected a build, got {:?}", other),
    }
}

#[test]
fn compiling_twice_gives_identical_plans() {
    let e = elem(
        "div",
        vec![
            attr("with", 1, Some(Expr::Tuple { elems: vec![ident("Foo", 2)], span: 1 })),
            attr("size", 3, Some(opaque(0, 4))),
        ],
        vec![
            MarkupNode::Text { value: String::from("hi"), span: 5 },
            MarkupNode::Element(elem("img", vec![], vec![])),
        ],
    );
    let first = compile_tree(&e);
    let second = compile_tree(&e);
    assert_eq!(first, second);
}

#[test]
fn error_accessors_report_span_and_message() {
    let e = CompileError::InvalidComponentDeclaration { span: 12 };
    assert_eq!(e.span(), 12);
    assert_eq!(e.message(), String::from("Invalid components declaration"));
    let d = CompileError::DuplicateEntityDeclaration { span: 1 };
    assert_eq!(d.message(), String::from("Entity already provided"));
    let m = CompileError::MissingEntityValue { span: 2 };
    assert_eq!(m.message(), String::from("Attribute entity should have a value"));
}

#[test]
fn with_attribute_without_value_is_a_plain_empty_attribute() {
    let r = compile_attr(&attr_node("with", 6, None)).unwrap();
    assert_eq!(
        r,
        vec![BuildOp::SetAttribute { name: String::from("with"), value: AttrValue::Empty }]
    );
}

#[test]
fn expression_clone_is_deep() {
    let tuple = Expr::Tuple { elems: vec![ident("Foo", 1), opaque(2, 3)], span: 0 };
    assert_eq!(tuple.clone(), tuple);
    assert_eq!(tuple.span(), 0);
}

#[test]
fn each_with_attribute_keeps_its_own_inserts() {
    let e = elem(
        "div",
        vec![
            attr("with", 1, Some(ident("Foo", 2))),
            attr("with", 3, Some(ident("bar", 4))),
        ],
        vec![],
    );
    let b = compile_element(&e, false).unwrap();
    match b {
        BuildOp::Build { ops, .. } => {
            assert_eq!(
                ops,
                vec![
                    BuildOp::InsertComponents {
                        inserts: vec![ComponentInsert::DefaultOf {
                            name: String::from("Foo"),
                            span: 2,
                        }],
                    },
                    BuildOp::InsertComponents {
                        inserts: vec![ComponentInsert::Value {
                            name: String::from("bar"),
                            span: 4,
                        }],
                    },
                ]
            );
        }
        other => panic!("expected a build, got {:?}", other),
    }
}

#[test]
fn attribute_entries_among_children_are_ignored() {
    let e = elem("div", vec![], vec![attr("stray", 1, None)]);
    let b = compile_element(&e, false).unwrap();
    assert_eq!(b, BuildOp::Build { tag: String::from("div"), tag_span: 0, ops: vec![] });
}

#[test]
fn grandchildren_compile_recursively() {
    let leaf = elem("leaf", vec![], vec![]);
    let mid = elem("mid", vec![], vec![MarkupNode::Element(leaf)]);
    let root = elem("root", vec![], vec![MarkupNode::Element(mid)]);
    let b = compile_tree(&root).unwrap();
    match b {
        BuildOp::Build { tag, ops, .. } => {
            assert_eq!(tag, String::from("root"));
            assert_eq!(ops.len(), 1);
            match &ops[0] {
                BuildOp::AppendChild { child: ChildSource::Built(mid_build) } => {
                    match &**mid_build {
                        BuildOp::Build { tag, ops, .. } => {
                            assert_eq!(tag, &String::from("mid"));
                            assert_eq!(ops.len(), 2);
                            assert_eq!(ops[0], BuildOp::SpawnEntity { explicit_parent: None });
                            assert!(matches!(ops[1], BuildOp::AppendChild { .. }));
                        }
                        other => panic!("expected a nested build, got {:?}", other),
                    }
                }
                other => panic!("expected an appended build, got {:?}", other),
            }
        }
        other => panic!("expected a build, got {:?}", other),
    }
}
