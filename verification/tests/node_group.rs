use visita::decl::{group_of, Field, Group, Shape, Variant};
use visita::node_group::{generate, render};
use visita::visibility::{Restriction, Visibility};
use visita::{node_group, DeclError};

const EXPR: &str = "#[derive(Debug, Clone)]
enum Expr {
    #[derive(Debug, Clone)]
    NumLit(f32),
    #[derive(Debug, Clone)]
    Bin { op: BinOp, lhs: Expr, rhs: Expr },
}";

fn expr_code() -> String {
    [
        "mod expr {",
        "    use super::*;",
        "    # [derive (Debug , Clone)]",
        "    pub(in super) struct NumLit(pub(in super) f32, );",
        "    impl visita::Member for NumLit {",
        "        type Family = Expr;",
        "    }",
        "    impl<V> visita::Node<V> for NumLit where V: visita::Visitor<Expr> + visita::Visit<NumLit> + visita::Visit<Bin> {}",
        "    impl NumLit {",
        "        pub fn to_node(self, data: ()) -> Expr {",
        "            Expr { node: Box::new(ExprNode::NumLit(self)), data }",
        "        }",
        "    }",
        "    # [derive (Debug , Clone)]",
        "    pub(in super) struct Bin {",
        "        pub(in super) op: BinOp,",
        "        pub(in super) lhs: Expr,",
        "        pub(in super) rhs: Expr,",
        "    }",
        "    impl visita::Member for Bin {",
        "        type Family = Expr;",
        "    }",
        "    impl<V> visita::Node<V> for Bin where V: visita::Visitor<Expr> + visita::Visit<NumLit> + visita::Visit<Bin> {}",
        "    impl Bin {",
        "        pub fn to_node(self, data: ()) -> Expr {",
        "            Expr { node: Box::new(ExprNode::Bin(self)), data }",
        "        }",
        "    }",
        "    # [derive (Debug , Clone)]",
        "    enum ExprNode {",
        "        NumLit(NumLit),",
        "        Bin(Bin),",
        "    }",
        "    # [derive (Debug , Clone)]",
        "    pub(in super) struct Expr {",
        "        node: Box<ExprNode>,",
        "        data: (),",
        "    }",
        "    impl<V> visita::NodeFamily<V> for Expr where V: visita::Visitor<Expr> + visita::Visit<NumLit> + visita::Visit<Bin> {",
        "        type Data = ();",
        "        fn accept(&self, v: &mut V) -> <V as visita::Visitor<Self>>::Output {",
        "            match self.node.as_ref() {",
        "                ExprNode::NumLit(node) => visita::Node::<V>::accept(node, v, &self.data),",
        "                ExprNode::Bin(node) => visita::Node::<V>::accept(node, v, &self.data),",
        "            }",
        "        }",
        "    }",
        "}",
        "use expr::{Expr, NumLit, Bin};",
        "",
    ]
    .join("\n")
}

fn texts(items: &[&str]) -> Vec<String> {
    items.iter().map(|s| s.to_string()).collect()
}

fn plain(ty: &str) -> Field {
    Field { attrs: Vec::new(), name: None, ty: ty.to_string() }
}

fn named(name: &str, ty: &str) -> Field {
    Field { attrs: Vec::new(), name: Some(name.to_string()), ty: ty.to_string() }
}

fn expr_group() -> Group {
    Group {
        attrs: texts(&["# [derive (Debug , Clone)]"]),
        vis: Visibility::Inherited,
        ident: "Expr".to_string(),
        variants: vec![
            Variant {
                attrs: texts(&["# [derive (Debug , Clone)]"]),
                ident: "NumLit".to_string(),
                shape: Shape::Unnamed,
                fields: vec![plain("f32")],
            },
            Variant {
                attrs: texts(&["# [derive (Debug , Clone)]"]),
                ident: "Bin".to_string(),
                shape: Shape::Named,
                fields: vec![named("op", "BinOp"), named("lhs", "Expr"), named("rhs", "Expr")],
            },
        ],
        payload: "()".to_string(),
    }
}

fn tokens(code: &str) -> String {
    code.parse::<proc_macro2::TokenStream>().unwrap().to_string()
}

fn restricted(in_token: bool, segments: &[&str]) -> Visibility {
    Visibility::Restricted(Restriction { in_token, leading_colon: false, segments: texts(segments) })
}

#[test]
fn expr_declaration_is_read() {
    assert_eq!(group_of("data = ()", EXPR), Ok(expr_group()));
}

#[test]
fn expr_family_is_generated() {
    assert_eq!(node_group("data = ()", EXPR), Ok(expr_code()));
}

#[test]
fn render_takes_the_module_name_as_given() {
    let code = render(&expr_group(), "nodes");
    assert_eq!(code, expr_code().replace("mod expr {", "mod nodes {").replace("use expr::", "use nodes::"));
}

#[test]
fn generate_names_the_module_in_lower_case() {
    let mut group = expr_group();
    group.ident = "SceneGraph".to_string();
    let code = generate(&group);
    assert!(code.starts_with("mod scenegraph {\n"));
    assert!(code.ends_with("use scenegraph::{SceneGraph, NumLit, Bin};\n"));
    assert!(code.contains("    enum SceneGraphNode {\n"));
}

#[test]
fn generated_code_is_rust() {
    let code = node_group("data = ()", EXPR).unwrap();
    let file = syn::parse_str::<syn::File>(&code).unwrap();
    assert_eq!(file.items.len(), 2);
    assert!(matches!(file.items[0], syn::Item::Mod(_)));
    assert!(matches!(file.items[1], syn::Item::Use(_)));
}

#[test]
fn generating_twice_gives_the_same_code() {
    let once = node_group("data = ()", EXPR);
    let again = node_group("data = ()", EXPR);
    assert_eq!(once, again);
    assert!(once.is_ok());
}

#[test]
fn every_variant_gets_a_struct_an_entry_an_arm_and_a_bound() {
    let code = node_group("data = u8", "enum Shape { Dot, Line(u8, u8), Area { w: u8, h: u8 } }").unwrap();
    for name in ["Dot", "Line", "Area"] {
        assert_eq!(code.matches(&format!("struct {name}")).count(), 1);
        assert_eq!(code.matches(&format!("        {name}({name}),\n")).count(), 1);
        assert_eq!(
            code.matches(&format!(
                "ShapeNode::{name}(node) => visita::Node::<V>::accept(node, v, &self.data),"
            ))
            .count(),
            1
        );
        assert_eq!(
            code.matches(&format!("node: Box::new(ShapeNode::{name}(self)), data")).count(),
            1
        );
    }
    let bounds = "where V: visita::Visitor<Shape> + visita::Visit<Dot> + visita::Visit<Line> + visita::Visit<Area> {";
    assert_eq!(code.matches(bounds).count(), 4);
}

#[test]
fn the_three_shapes_of_fields() {
    let code = node_group("data = u8", "pub enum Shape { Dot, Line(u8, i8), Area { w: u8, h: u8 } }").unwrap();
    assert!(code.contains("    pub struct Dot;\n"));
    assert!(code.contains("    pub struct Line(pub u8, pub i8, );\n"));
    assert!(code.contains("    pub struct Area {\n        pub w: u8,\n        pub h: u8,\n    }\n"));
}

#[test]
fn the_payload_type_is_written_where_the_payload_goes() {
    let code = node_group("data = Vec<(u8, &'static str)>", "enum E { A }").unwrap();
    let payload = "Vec < (u8 , & 'static str) >";
    assert!(code.contains(&format!("pub fn to_node(self, data: {payload}) -> E {{")));
    assert!(code.contains(&format!("        data: {payload},\n")));
    assert!(code.contains(&format!("        type Data = {payload};\n")));
}

#[test]
fn attributes_are_carried_over() {
    let code = node_group(
        "data = ()",
        "#[derive(Clone)] #[repr(C)] enum E { #[derive(Default)] A { #[allow(unused)] x: u8 }, B(#[allow(unused)] u8) }",
    )
    .unwrap();
    assert!(code.contains("    # [derive (Default)]\n    pub(in super) struct A {\n        # [allow (unused)]\n        pub(in super) x: u8,\n    }\n"));
    assert!(code.contains("    pub(in super) struct B(# [allow (unused)] pub(in super) u8, );\n"));
    assert!(code.contains("    # [derive (Clone)]\n    # [repr (C)]\n    enum ENode {\n"));
    assert!(code.contains("    # [derive (Clone)]\n    # [repr (C)]\n    pub(in super) struct E {\n"));
}

#[test]
fn a_field_s_own_visibility_gives_way_to_the_group_s() {
    let code = node_group("data = ()", "pub(crate) enum E { A { pub x: u8, y: u8 }, B(pub(super) u8) }").unwrap();
    assert!(code.contains("        pub(crate) x: u8,\n        pub(crate) y: u8,\n"));
    assert!(code.contains("    pub(crate) struct B(pub(crate) u8, );\n"));
}

#[test]
fn a_family_without_variants() {
    let code = node_group("data = ()", "enum Never {}").unwrap();
    assert!(code.contains("    enum NeverNode {\n    }\n"));
    assert!(code.contains("impl<V> visita::NodeFamily<V> for Never where V: visita::Visitor<Never> {\n"));
    assert!(code.ends_with("use never::{Never};\n"));
    assert!(syn::parse_str::<syn::File>(&code).is_ok());
}

#[test]
fn public_stays_public() {
    let group = group_of("data = ()", "pub enum E { A }").unwrap();
    assert_eq!(group.vis, Visibility::Public);
    let code = generate(&group);
    assert!(code.contains("    pub struct A;\n"));
    assert!(code.contains("    pub struct E {\n"));
    assert!(code.ends_with("}\npub use e::{E, A};\n"));
}

#[test]
fn crate_wide_stays_crate_wide() {
    let group = group_of("data = ()", "pub(crate) enum E { A }").unwrap();
    assert_eq!(group.vis, restricted(false, &["crate"]));
    let code = generate(&group);
    assert!(code.contains("    pub(crate) struct A;\n"));
    assert!(code.contains("    pub(crate) struct E {\n"));
    assert!(code.ends_with("}\npub(crate) use e::{E, A};\n"));
}

#[test]
fn the_bare_word_crate_stays() {
    let group = group_of("data = ()", "crate enum E { A }").unwrap();
    assert_eq!(group.vis, Visibility::Crate);
    let code = generate(&group);
    assert!(code.contains("    crate struct A;\n"));
    assert!(code.ends_with("}\ncrate use e::{E, A};\n"));
}

#[test]
fn a_path_from_the_crate_stays() {
    let group = group_of("data = ()", "pub(in crate::ast) enum E { A }").unwrap();
    assert_eq!(group.vis, restricted(true, &["crate", "ast"]));
    let code = generate(&group);
    assert!(code.contains("    pub(in crate::ast) struct A;\n"));
    assert!(code.ends_with("}\npub(in crate::ast) use e::{E, A};\n"));
}

#[test]
fn private_is_rerooted() {
    let group = group_of("data = ()", "enum E { A }").unwrap();
    assert_eq!(group.vis, Visibility::Inherited);
    let code = generate(&group);
    assert!(code.contains("    pub(in super) struct A;\n"));
    assert!(code.contains("    pub(in super) struct E {\n"));
    assert!(code.ends_with("}\nuse e::{E, A};\n"));
}

#[test]
fn super_is_rerooted() {
    let group = group_of("data = ()", "pub(super) enum E { A }").unwrap();
    assert_eq!(group.vis, restricted(false, &["super"]));
    let code = generate(&group);
    assert!(code.contains("    pub(in super::super) struct A;\n"));
    assert!(code.contains("    pub(in super::super) struct E {\n"));
    assert!(code.ends_with("}\npub(super) use e::{E, A};\n"));
}

#[test]
fn self_is_rerooted() {
    let group = group_of("data = ()", "pub(self) enum E { A }").unwrap();
    let code = generate(&group);
    assert!(code.contains("    pub(in super) struct A;\n"));
    assert!(code.ends_with("}\npub(self) use e::{E, A};\n"));
}

#[test]
fn a_path_from_super_is_rerooted() {
    let group = group_of("data = ()", "pub(in super::super) enum E { A }").unwrap();
    assert_eq!(group.vis, restricted(true, &["super", "super"]));
    let code = generate(&group);
    assert!(code.contains("    pub(in super::super::super) struct A;\n"));
    assert!(code.ends_with("}\npub(in super::super) use e::{E, A};\n"));
}

#[test]
fn missing_data_clause_is_refused() {
    assert_eq!(node_group("", EXPR), Err(DeclError::MissingData));
    assert_eq!(node_group("date = ()", EXPR), Err(DeclError::MissingData));
    assert_eq!(node_group("data: ()", EXPR), Err(DeclError::MissingData));
    assert_eq!(node_group("data", EXPR), Err(DeclError::MissingData));
    assert_eq!(node_group("\"data\" = ()", EXPR), Err(DeclError::MissingData));
    assert_eq!(node_group("output = ()", EXPR), Err(DeclError::MissingData));
}

#[test]
fn a_payload_that_is_no_type_is_refused() {
    assert!(matches!(node_group("data = ", EXPR), Err(DeclError::Syntax(_))));
    assert!(matches!(node_group("data = 7", EXPR), Err(DeclError::Syntax(_))));
    assert_eq!(
        node_group("data = u8 u8", EXPR),
        Err(DeclError::Syntax("unexpected token".to_string()))
    );
    assert!(matches!(node_group("data == u8", EXPR), Err(DeclError::Syntax(_))));
}

#[test]
fn arguments_that_are_no_tokens_are_refused() {
    assert_eq!(
        node_group("data = (", EXPR),
        Err(DeclError::Syntax("cannot parse string into token stream".to_string()))
    );
}

#[test]
fn an_item_that_is_no_enum_is_refused() {
    assert_eq!(
        node_group("data = ()", "struct Expr;"),
        Err(DeclError::Syntax("expected `enum`".to_string()))
    );
    assert!(matches!(node_group("data = ()", "fn f() {}"), Err(DeclError::Syntax(_))));
    assert!(matches!(node_group("data = ()", ""), Err(DeclError::Syntax(_))));
    assert!(matches!(node_group("data = ()", "enum E { A } enum F { B }"), Err(DeclError::Syntax(_))));
}

#[test]
fn the_arguments_are_read_before_the_item() {
    assert_eq!(node_group("date = ()", "struct Expr;"), Err(DeclError::MissingData));
}

#[test]
fn lexing_the_code_gives_the_tokens_of_the_layout() {
    let code = node_group("data = ()", "enum E { A(u8) }").unwrap();
    let by_hand = "mod e { use super::*;
        pub(in super) struct A(pub(in super) u8,);
        impl visita::Member for A { type Family = E; }
        impl<V> visita::Node<V> for A where V: visita::Visitor<E> + visita::Visit<A> {}
        impl A { pub fn to_node(self, data: ()) -> E { E { node: Box::new(ENode::A(self)), data } } }
        enum ENode { A(A), }
        pub(in super) struct E { node: Box<ENode>, data: (), }
        impl<V> visita::NodeFamily<V> for E where V: visita::Visitor<E> + visita::Visit<A> {
            type Data = ();
            fn accept(&self, v: &mut V) -> <V as visita::Visitor<Self>>::Output {
                match self.node.as_ref() {
                    ENode::A(node) => visita::Node::<V>::accept(node, v, &self.data),
                }
            }
        }
    }
    use e::{E, A};";
    assert_eq!(tokens(&code), tokens(by_hand));
}

#[test]
fn doc_comments_are_carried_over_as_attributes() {
    let code = node_group(
        "data = ()",
        "/// A tree.\nenum Tree {\n    /// A leaf.\n    Leaf { /** its weight */ weight: u8 },\n}",
    )
    .unwrap();
    assert!(code.contains("    # [doc = \" A leaf.\"]\n    pub(in super) struct Leaf {\n"));
    assert!(code.contains("        # [doc = \" its weight \"]\n        pub(in super) weight: u8,\n"));
    assert_eq!(code.matches("    # [doc = \" A tree.\"]\n").count(), 2);
    assert!(syn::parse_str::<syn::File>(&code).is_ok());
}

#[test]
fn a_discriminant_is_left_out() {
    let code = node_group("data = ()", "enum E { A = 1, B = 2 }").unwrap();
    assert!(code.contains("    pub(in super) struct A;\n"));
    assert!(code.contains("    pub(in super) struct B;\n"));
    assert!(!code.contains('1'));
    assert!(syn::parse_str::<syn::File>(&code).is_ok());
}

#[test]
fn a_tuple_type_is_no_visibility() {
    let group = group_of("data = ()", "enum E { A(pub (crate::X, crate::Y)) }").unwrap();
    assert_eq!(group.variants[0].fields, vec![plain("(crate :: X , crate :: Y)")]);
    let code = generate(&group);
    assert!(code.contains("    pub(in super) struct A(pub(in super) (crate :: X , crate :: Y), );\n"));
    assert!(syn::parse_str::<syn::File>(&code).is_ok());
}

#[test]
fn generated_code_is_rust_whatever_the_visibility() {
    for vis in ["", "pub", "pub(crate)", "pub(self)", "pub(super)", "pub(in super::super)", "pub(in crate::a::b)"] {
        let item = format!("{vis} enum E {{ A, B(u8), C {{ x: u8 }} }}");
        let code = node_group("data = Option<u8>", &item).unwrap();
        assert!(syn::parse_str::<syn::File>(&code).is_ok());
    }
}

#[test]
fn a_literal_that_the_parser_cannot_classify_is_refused() {
    assert_eq!(node_group("data = A<c\"x\">", "enum E { A }"), Err(DeclError::Unsupported));
    assert_eq!(node_group("data = ()", "enum E { A = c\"x\" }"), Err(DeclError::Unsupported));
    assert_eq!(node_group("data = ()", "enum E { A([u8; cr#\"x\"#]) }"), Err(DeclError::Unsupported));
    assert_eq!(node_group("data = ()", "enum E { A((/*ERROR*/)) }"), Err(DeclError::Unsupported));
}

#[test]
fn literals_of_every_kind_that_the_parser_knows_are_taken() {
    assert!(node_group("data = Foo<'c'>", "enum E { A }").is_ok());
    assert!(node_group("data = ()", "enum E { A(Foo<'c'>) }").is_ok());
    assert!(node_group("data = ()", "enum E { A = b'a' }").is_ok());
    assert!(node_group("data = ()", "enum E { A { x: Foo<\"4\", 1.5, b\"x\", r#\"y\"#, -7> } }").is_ok());
    let code = node_group(
        "data = [u8; 4]",
        "enum E { A([u8; 16]), B { x: [u8; 0xFF], y: [i8; 8usize] }, C = 3, D(Grid<2, 1_000, 'c'>) }",
    )
    .unwrap();
    assert!(code.contains("    pub(in super) struct A(pub(in super) [u8 ; 16], );\n"));
    assert!(code.contains("        pub(in super) x: [u8 ; 0xFF],\n        pub(in super) y: [i8 ; 8usize],\n"));
    assert!(code.contains("    pub(in super) struct D(pub(in super) Grid < 2 , 1_000 , 'c' >, );\n"));
    assert!(code.contains("        data: [u8 ; 4],\n"));
}

#[test]
fn literals_in_attributes_are_not_looked_at() {
    let code = node_group(
        "data = ()",
        "#[doc = c\"x\"] enum E { #[cfg(feature = \"a\\\"b\")] A { #[serde(rename = 'x', skip = 1.5)] x: u8 } }",
    )
    .unwrap();
    assert!(code.contains("    # [doc = c\"x\"]\n    enum ENode {\n"));
    assert!(code.contains("    # [cfg (feature = \"a\\\"b\")]\n    pub(in super) struct A {\n"));
    assert!(code.contains("        # [serde (rename = 'x' , skip = 1.5)]\n        pub(in super) x: u8,\n"));
}

#[test]
fn nesting_beyond_the_limit_is_refused() {
    let deep = |n: usize| format!("enum E {{ A({}u8{}) }}", "(".repeat(n), ")".repeat(n));
    assert!(node_group("data = ()", &deep(42)).is_ok());
    assert_eq!(node_group("data = ()", &deep(43)), Err(DeclError::Unsupported));
    assert_eq!(node_group("data = ()", &deep(900)), Err(DeclError::Unsupported));
    let payload = |n: usize| format!("data = {}u8{}", "[".repeat(n), "; 1]".repeat(n));
    assert!(node_group(&payload(47), "enum E { A }").is_ok());
    assert_eq!(node_group(&payload(48), "enum E { A }"), Err(DeclError::Unsupported));
    let refs = |n: usize| format!("enum E {{ A {{ x: {}u8 }} }}", "&".repeat(n));
    assert!(node_group("data = ()", &refs(40)).is_ok());
    assert_eq!(node_group("data = ()", &refs(48)), Err(DeclError::Unsupported));
    assert_eq!(node_group("data = ()", &refs(1000000)), Err(DeclError::Unsupported));
}

#[test]
fn too_many_brackets_are_refused() {
    let wide = |n: usize| format!("enum E {{ {} }}", "A(u8), ".repeat(n));
    assert!(node_group("data = ()", &wide(1000)).is_ok());
    assert_eq!(node_group("data = ()", &wide(1024)), Err(DeclError::Unsupported));
    let nested = format!("{}{}", "(".repeat(1000000), ")".repeat(1000000));
    assert_eq!(node_group("data = ()", &nested), Err(DeclError::Unsupported));
    assert_eq!(node_group(&format!("data = {nested}"), "enum E { A }"), Err(DeclError::Unsupported));
    let attr = format!("#[a{nested}] enum E {{ A }}");
    assert_eq!(node_group("data = ()", &attr), Err(DeclError::Unsupported));
}

#[test]
fn a_long_declaration_is_taken() {
    let variants: String = (0..300)
        .map(|i| format!("/// Variant {i} (of many).\nV{i} {{ left: Box<Expr>, right: Vec<Option<Expr>>, tag: u{} }},\n", 8 << (i % 4)))
        .collect();
    let code = node_group("data = Span", &format!("pub enum Expr {{ {variants} }}")).unwrap();
    assert_eq!(code.matches("    impl visita::Member for V").count(), 300);
    assert!(syn::parse_str::<syn::File>(&code).is_ok());
}

#[test]
fn text_that_does_not_lex_is_the_parser_s_to_refuse() {
    assert_eq!(
        node_group("data = ()", "enum E { A(c\"x\") "),
        Err(DeclError::Syntax("lex error".to_string()))
    );
}

#[test]
fn declarations_that_fit_come_back_from_the_parser() {
    let shapes = [
        ("enum E { A(", "&", "u8", "", ") }"),
        ("enum E { A { x: ", "Vec<", "u8", ">", " } }"),
        ("enum E { A(", "(", "u8", ",)", ") }"),
        ("enum E { A = ", "-", "1", "", " }"),
        ("enum E { A = ", "(", "1", ")", " }"),
        ("enum E { A = ", "|| ", "1", "", " }"),
        ("enum E { A = ", "1 << ", "1", "", " }"),
        ("enum E<A: ", "B<", "u8", ">", "> { A }"),
        ("enum E where ", "&", "u8", "", ": A { A }"),
        ("struct S where ", "&", "u8", "", ": A;"),
        ("struct S(", "[", "u8", "; 1]", ");"),
        ("union U { x: ", "*mut ", "u8", "", " }"),
    ];
    for (before, opener, core, closer, after) in shapes {
        let text =
            |n: usize| format!("{before}{}{core}{}{after}", opener.repeat(n), closer.repeat(n));
        let refused = |item: &str| {
            node_group("data = ()", item) == Err(DeclError::Unsupported)
                && visita::visitor("G, output = u8", item) == Err(DeclError::Unsupported)
        };
        let mut most = 0;
        while most < 60 && !refused(&text(most + 1)) {
            most += 1;
        }
        assert!(most >= 1, "{}", text(1));
        assert!(most < 60, "{}", text(1));
        assert!(refused(&text(100000)), "{}", text(1));
    }
}

#[test]
fn what_stands_side_by_side_is_not_nesting() {
    for (unit, n) in [("#[a] ", 1000), ("A, ", 5000), ("A(u8), ", 1000), ("A { x: Vec<u8> }, ", 1000), ("/// A.\nA, ", 1000)] {
        let item = format!("enum E {{ {} Z }}", unit.repeat(n));
        assert!(node_group("data = ()", &item).is_ok(), "{unit}");
    }
    let path = format!("pub(in {}b) enum E {{ A }}", "a::".repeat(40));
    assert!(node_group("data = ()", &path) != Err(DeclError::Unsupported));
}
