//! The node-group compiler: from the declaration of a family to the code
//! of its types and of its dispatch.
//!
//! For a family `Expr` with the payload type `P` the code is, inside a
//! module of its own: one struct for each variant, with the variant's
//! fields, attributes and name; for each of them the impls of
//! [`Member`](crate::dispatch::Member) and [`Node`](crate::dispatch::Node)
//! and a method `to_node`, which wraps a value of the struct and a payload
//! into an `Expr`; a private enum `ExprNode` with one entry for each
//! struct; the struct `Expr`, which holds a boxed `ExprNode` and a `P`; and
//! the impl of [`NodeFamily`](crate::dispatch::NodeFamily) for `Expr`,
//! whose `accept` matches on the entry and hands the visitor and the
//! payload on. Behind the module, `Expr` and the structs are re-exported
//! with the visibility that the declaration was written with.

use vstd::prelude::*;
use vstd::string::*;
use crate::decl::{group_in, group_of, Field, FieldSpec, Group, GroupSpec, Shape, Variant, VariantSpec};
use crate::error::{text_outcome, DeclError, DeclErrorSpec};
use crate::visibility::{rerooting_keeps_the_scope, VisibilitySpec};
use crate::text::{concat, concat_take, each, each_all, each_none, each_take, lowercase, lowercased};

verus! {

impl GroupSpec {
    /// The name of the private enum that holds one node of the family.
    pub open spec fn container(self) -> Seq<char> {
        self.ident + "Node"@
    }

    /// The names of the node types, in the order of the declaration.
    pub open spec fn names(self) -> Seq<Seq<char>> {
        self.variants.map_values(|v: VariantSpec| v.ident)
    }

    /// The entries of the container: each is named like the node type that
    /// it holds.
    pub open spec fn entries(self) -> Seq<Entry> {
        self.names().map_values(|name: Seq<char>| Entry { name, holds: name })
    }

    /// The entry that `to_node` of the node type at `i` wraps its value in.
    pub open spec fn wraps(self, i: int) -> Seq<char> {
        self.names()[i]
    }

    /// The entries that the arms of the dispatch match on, in order.
    pub open spec fn arms(self) -> Seq<Seq<char>> {
        self.names()
    }

    /// The node types whose visiting logic the dispatch demands of a
    /// visitor, by a bound for each.
    pub open spec fn bounds(self) -> Seq<Seq<char>> {
        self.names()
    }

    /// The node types that are re-exported beside the family.
    pub open spec fn exports(self) -> Seq<Seq<char>> {
        self.names()
    }

    /// The visibility written on the family's struct, on the node types'
    /// structs and on their fields, inside the module.
    pub open spec fn inner(self) -> VisibilitySpec {
        self.vis.rerooted()
    }

    /// The visibility written on the re-export, outside the module.
    pub open spec fn outer(self) -> VisibilitySpec {
        self.vis
    }

    /// The value that `to_node` of the node type at `i` builds from
    /// `payload`.
    pub open spec fn built<P>(self, i: int, payload: P) -> Built<P> {
        Built { entry: self.wraps(i), payload }
    }

    /// What the dispatch does with `value`: the first arm that matches the
    /// entry is taken, and the value in the entry, which is of the node
    /// type that the container declares for it, is handed the payload
    /// stored beside it. `None` where no arm matches.
    pub open spec fn routed<P>(self, value: Built<P>) -> Option<Routed<P>> {
        match position(self.arms(), value.entry) {
            None => None,
            Some(arm) => match position(entry_names(self.entries()), self.arms()[arm]) {
                None => None,
                Some(entry) => Some(
                    Routed { node: self.entries()[entry].holds, payload: value.payload },
                ),
            },
        }
    }

    /// Whether the dispatch is there for a visitor that has visiting logic
    /// for exactly the node types in `visited`: whether such a visitor
    /// meets every bound.
    pub open spec fn admits(self, visited: Set<Seq<char>>) -> bool {
        forall|i: int| 0 <= i < self.bounds().len() ==> visited.contains(#[trigger] self.bounds()[i])
    }
}

/// One entry of the container: its name and the node type of the value in
/// it.
pub ghost struct Entry {
    pub name: Seq<char>,
    pub holds: Seq<char>,
}

/// A value of the family as `to_node` builds it: the entry that holds the
/// node, and the payload stored beside it.
pub ghost struct Built<P> {
    pub entry: Seq<char>,
    pub payload: P,
}

/// What the dispatch hands on: the node type whose `accept` is called, and
/// the payload it is called with.
pub ghost struct Routed<P> {
    pub node: Seq<char>,
    pub payload: P,
}

/// The names of the entries.
pub open spec fn entry_names(entries: Seq<Entry>) -> Seq<Seq<char>> {
    entries.map_values(|entry: Entry| entry.name)
}

/// The first place at which `name` stands in `names`.
pub open spec fn position(names: Seq<Seq<char>>, name: Seq<char>) -> Option<int>
    decreases names.len(),
{
    if names.len() == 0 {
        None
    } else if names[0] == name {
        Some(0)
    } else {
        match position(names.skip(1), name) {
            Some(at) => Some(at + 1),
            None => None,
        }
    }
}

/// A name that stands in `names` is found, at a place where it stands.
pub proof fn position_finds(names: Seq<Seq<char>>, at: int)
    requires
        0 <= at < names.len(),
    ensures
        position(names, names[at]) matches Some(found) && 0 <= found <= at && names[found]
            == names[at],
    decreases names.len(),
{
    if names[0] != names[at] {
        position_finds(names.skip(1), at - 1);
    }
}

/// The dispatch is exhaustive. It is there for a visitor exactly if the
/// visitor has visiting logic for every node type of the family: one that
/// lacks it for a single node type is not admitted.
pub proof fn dispatch_is_exhaustive(group: GroupSpec, visited: Set<Seq<char>>)
    ensures
        group.admits(visited) <==> forall|i: int|
            0 <= i < group.variants.len() ==> visited.contains(#[trigger] group.variants[i].ident),
{
    if group.admits(visited) {
        assert forall|i: int| 0 <= i < group.variants.len() implies visited.contains(
            #[trigger] group.variants[i].ident,
        ) by {
            assert(group.bounds()[i] == group.variants[i].ident);
        }
    }
    if forall|i: int|
        0 <= i < group.variants.len() ==> visited.contains(#[trigger] group.variants[i].ident) {
        assert forall|i: int| 0 <= i < group.bounds().len() implies visited.contains(
            #[trigger] group.bounds()[i],
        ) by {
            assert(group.bounds()[i] == group.variants[i].ident);
        }
    }
}

/// The dispatch reaches the node that was wrapped, with the payload that
/// was given. Whatever node type a value was built from, an arm matches
/// it, the `accept` that is called is the one of that node type and of no
/// other, and the payload handed to it is the one that `to_node` was given.
pub proof fn dispatch_reaches_what_was_wrapped<P>(group: GroupSpec, i: int, payload: P)
    requires
        0 <= i < group.variants.len(),
    ensures
        group.routed(group.built(i, payload)) == Some(
            Routed { node: group.variants[i].ident, payload },
        ),
{
    let names = group.names();
    assert(entry_names(group.entries()) =~= names);
    position_finds(names, i);
    let arm = position(names, names[i])->Some_0;
    position_finds(names, arm);
}

/// Generating is repeatable: whatever [`node_group`] gives twice for one
/// declaration is one and the same.
pub proof fn node_group_repeats(
    attr: Seq<char>,
    item: Seq<char>,
    once: Result<String, DeclError>,
    again: Result<String, DeclError>,
)
    requires
        text_outcome(once) == family_code(attr, item),
        text_outcome(again) == family_code(attr, item),
    ensures
        text_outcome(once) == text_outcome(again),
{
}

/// The generated types are seen from where the declaration said. For a
/// node group declared in the module `site` with a visibility that is
/// valid there, the visibility written inside the generated module
/// `module` opens, from in there, the scope that the declaration's own
/// opens; the re-export carries the declaration's own; and every node type
/// is re-exported beside the family.
pub proof fn visibility_is_kept(group: GroupSpec, site: Seq<Seq<char>>, module: Seq<char>)
    requires
        group.vis.scope(site) is Some,
    ensures
        group.inner().scope(site.push(module)) == group.vis.scope(site),
        group.outer().scope(site) == group.vis.scope(site),
        group.exports().len() == group.variants.len(),
        forall|i: int|
            0 <= i < group.variants.len() ==> #[trigger] group.exports()[i]
                == group.variants[i].ident,
{
    rerooting_keeps_the_scope(group.vis, site, module);
}

/// One attribute, with what stands before and behind it.
pub open spec fn attr_piece(before: Seq<char>, after: Seq<char>) -> spec_fn(Seq<char>) -> Seq<
    char,
> {
    |attr: Seq<char>| before + attr + after
}

/// The attributes in order.
pub open spec fn attrs_text(attrs: Seq<Seq<char>>, before: Seq<char>, after: Seq<char>) -> Seq<
    char,
> {
    each(attrs, attr_piece(before, after))
}

/// A field with the visibility `vis` in front of it.
pub open spec fn field_text(field: FieldSpec, vis: Seq<char>) -> Seq<char> {
    match field.name {
        Some(name) => vis + name + ": "@ + field.ty,
        None => vis + field.ty,
    }
}

/// One field between braces, on a line of its own.
pub open spec fn braced_piece(vis: Seq<char>) -> spec_fn(FieldSpec) -> Seq<char> {
    |field: FieldSpec|
        attrs_text(field.attrs, "        "@, "\n"@) + "        "@ + field_text(field, vis)
            + ",\n"@
}

/// One field between round brackets.
pub open spec fn bracketed_piece(vis: Seq<char>) -> spec_fn(FieldSpec) -> Seq<char> {
    |field: FieldSpec| attrs_text(field.attrs, ""@, " "@) + field_text(field, vis) + ", "@
}

/// What follows the name of a node type's struct: its fields, each with
/// the visibility `vis`.
pub open spec fn body_text(variant: VariantSpec, vis: Seq<char>) -> Seq<char> {
    match variant.shape {
        Shape::Named => " {\n"@ + each(variant.fields, braced_piece(vis)) + "    }\n"@,
        Shape::Unnamed => "("@ + each(variant.fields, bracketed_piece(vis)) + ");\n"@,
        Shape::Unit => ";\n"@,
    }
}

/// One more bound on the visitor: the visiting logic for `node`.
pub open spec fn bound_piece() -> spec_fn(Seq<char>) -> Seq<char> {
    |node: Seq<char>| " + visita::Visit<"@ + node + ">"@
}

/// What the dispatch demands of a visitor: its output for the family, and
/// the visiting logic for each node type.
pub open spec fn bounds_text(group: GroupSpec) -> Seq<char> {
    "visita::Visitor<"@ + group.ident + ">"@ + each(group.bounds(), bound_piece())
}

/// The code of the node type at `i`.
#[verifier::opaque]
pub open spec fn node_text(group: GroupSpec, i: int) -> Seq<char> {
    let variant = group.variants[i];
    let vis = group.inner().prefix();
    attrs_text(variant.attrs, "    "@, "\n"@) + "    "@ + vis + "struct "@ + variant.ident
        + body_text(variant, vis) + "    impl visita::Member for "@ + variant.ident
        + " {\n        type Family = "@ + group.ident + ";\n    }\n    impl<V> visita::Node<V> for "@
        + variant.ident + " where V: "@ + bounds_text(group) + " {}\n    impl "@ + variant.ident
        + " {\n        pub fn to_node(self, data: "@ + group.payload + ") -> "@ + group.ident
        + " {\n            "@ + group.ident + " { node: Box::new("@ + group.container() + "::"@
        + group.wraps(i) + "(self)), data }\n        }\n    }\n"@
}

/// The code of each node type.
pub open spec fn node_pieces(group: GroupSpec) -> Seq<Seq<char>> {
    Seq::new(group.variants.len(), |i: int| node_text(group, i))
}

/// One entry of the container.
pub open spec fn entry_piece() -> spec_fn(Entry) -> Seq<char> {
    |entry: Entry| "        "@ + entry.name + "("@ + entry.holds + "),\n"@
}

/// One arm of the dispatch: the value in the entry is handed the visitor
/// and the payload stored beside it.
pub open spec fn arm_piece(container: Seq<char>) -> spec_fn(Seq<char>) -> Seq<char> {
    |entry: Seq<char>|
        "                "@ + container + "::"@ + entry
            + "(node) => visita::Node::<V>::accept(node, v, &self.data),\n"@
}

/// The code of the container, of the family's struct and of its dispatch.
pub open spec fn family_text(group: GroupSpec) -> Seq<char> {
    let vis = group.inner().prefix();
    attrs_text(group.attrs, "    "@, "\n"@) + "    enum "@ + group.container() + " {\n"@ + each(
        group.entries(),
        entry_piece(),
    ) + "    }\n"@ + attrs_text(group.attrs, "    "@, "\n"@) + "    "@ + vis + "struct "@
        + group.ident + " {\n        node: Box<"@ + group.container() + ">,\n        data: "@
        + group.payload + ",\n    }\n    impl<V> visita::NodeFamily<V> for "@ + group.ident
        + " where V: "@ + bounds_text(group) + " {\n        type Data = "@ + group.payload
        + ";\n        fn accept(&self, v: &mut V) -> <V as visita::Visitor<Self>>::Output {\n            match self.node.as_ref() {\n"@
        + each(group.arms(), arm_piece(group.container()))
        + "            }\n        }\n    }\n"@
}

/// One more name in the re-export.
pub open spec fn export_piece() -> spec_fn(Seq<char>) -> Seq<char> {
    |name: Seq<char>| ", "@ + name
}

/// The code generated for `group`, with its types inside a module named
/// `module`.
pub open spec fn rendered(group: GroupSpec, module: Seq<char>) -> Seq<char> {
    "mod "@ + module + " {\n    use super::*;\n"@ + concat(node_pieces(group)) + family_text(group)
        + "}\n"@ + group.outer().prefix() + "use "@ + module + "::{"@ + group.ident + each(
        group.exports(),
        export_piece(),
    ) + "};\n"@
}

fn write_attrs(attrs: &Vec<String>, before: &str, after: &str) -> (text: String)
    ensures
        text@ == attrs_text(attrs.deep_view(), before@, after@),
{
    let ghost all = attrs.deep_view();
    let ghost piece = attr_piece(before@, after@);
    let mut text = String::new();
    let mut i: usize = 0;
    proof {
        each_none(all, piece);
    }
    while i < attrs.len()
        invariant
            i <= attrs.len(),
            all == attrs.deep_view(),
            piece == attr_piece(before@, after@),
            text@ == each(all.take(i as int), piece),
        decreases attrs.len() - i,
    {
        proof {
            each_take(all, piece, i as int);
            assert(all[i as int] == attrs[i as int]@);
        }
        let mut one = String::from_str(before);
        one.append(attrs[i].as_str());
        one.append(after);
        text.append(one.as_str());
        i = i + 1;
    }
    proof {
        each_all(all, piece);
    }
    text
}

fn write_field(field: &Field, vis: &str) -> (text: String)
    ensures
        text@ == field_text(field@, vis@),
{
    let mut text = String::from_str(vis);
    match &field.name {
        Some(name) => {
            text.append(name.as_str());
            text.append(": ");
            text.append(field.ty.as_str());
        },
        None => {
            text.append(field.ty.as_str());
        },
    }
    text
}

fn write_braced(fields: &Vec<Field>, vis: &str) -> (text: String)
    ensures
        text@ == each(fields.deep_view(), braced_piece(vis@)),
{
    let ghost all = fields.deep_view();
    let ghost piece = braced_piece(vis@);
    let mut text = String::new();
    let mut i: usize = 0;
    proof {
        each_none(all, piece);
    }
    while i < fields.len()
        invariant
            i <= fields.len(),
            all == fields.deep_view(),
            piece == braced_piece(vis@),
            text@ == each(all.take(i as int), piece),
        decreases fields.len() - i,
    {
        proof {
            each_take(all, piece, i as int);
            assert(all[i as int] == fields[i as int]@);
        }
        let mut one = write_attrs(&fields[i].attrs, "        ", "\n");
        one.append("        ");
        one.append(write_field(&fields[i], vis).as_str());
        one.append(",\n");
        text.append(one.as_str());
        i = i + 1;
    }
    proof {
        each_all(all, piece);
    }
    text
}

fn write_bracketed(fields: &Vec<Field>, vis: &str) -> (text: String)
    ensures
        text@ == each(fields.deep_view(), bracketed_piece(vis@)),
{
    let ghost all = fields.deep_view();
    let ghost piece = bracketed_piece(vis@);
    let mut text = String::new();
    let mut i: usize = 0;
    proof {
        each_none(all, piece);
    }
    while i < fields.len()
        invariant
            i <= fields.len(),
            all == fields.deep_view(),
            piece == bracketed_piece(vis@),
            text@ == each(all.take(i as int), piece),
        decreases fields.len() - i,
    {
        proof {
            each_take(all, piece, i as int);
            assert(all[i as int] == fields[i as int]@);
        }
        let mut one = write_attrs(&fields[i].attrs, "", " ");
        one.append(write_field(&fields[i], vis).as_str());
        one.append(", ");
        text.append(one.as_str());
        i = i + 1;
    }
    proof {
        each_all(all, piece);
    }
    text
}

fn write_body(variant: &Variant, vis: &str) -> (text: String)
    ensures
        text@ == body_text(variant@, vis@),
{
    match variant.shape {
        Shape::Named => {
            let mut text = String::from_str(" {\n");
            text.append(write_braced(&variant.fields, vis).as_str());
            text.append("    }\n");
            text
        },
        Shape::Unnamed => {
            let mut text = String::from_str("(");
            text.append(write_bracketed(&variant.fields, vis).as_str());
            text.append(");\n");
            text
        },
        Shape::Unit => String::from_str(";\n"),
    }
}

fn write_bounds(group: &Group) -> (text: String)
    ensures
        text@ == bounds_text(group@),
{
    let ghost all = group@.bounds();
    let ghost piece = bound_piece();
    let mut tail = String::new();
    let mut i: usize = 0;
    proof {
        each_none(all, piece);
    }
    while i < group.variants.len()
        invariant
            i <= group.variants.len(),
            all == group@.bounds(),
            piece == bound_piece(),
            tail@ == each(all.take(i as int), piece),
        decreases group.variants.len() - i,
    {
        proof {
            each_take(all, piece, i as int);
            assert(group@.variants[i as int] == group.variants[i as int]@);
        }
        let mut one = String::from_str(" + visita::Visit<");
        one.append(group.variants[i].ident.as_str());
        one.append(">");
        tail.append(one.as_str());
        i = i + 1;
    }
    proof {
        each_all(all, piece);
    }
    let mut text = String::from_str("visita::Visitor<");
    text.append(group.ident.as_str());
    text.append(">");
    text.append(tail.as_str());
    text
}

fn write_node(group: &Group, i: usize, vis: &str, bounds: &str, container: &str) -> (text: String)
    requires
        i < group.variants.len(),
        vis@ == group@.inner().prefix(),
        bounds@ == bounds_text(group@),
        container@ == group@.container(),
    ensures
        text@ == node_text(group@, i as int),
{
    let variant = &group.variants[i];
    proof {
        reveal(node_text);
        assert(group@.variants[i as int] == variant@);
    }
    let mut text = write_attrs(&variant.attrs, "    ", "\n");
    text.append("    ");
    text.append(vis);
    text.append("struct ");
    text.append(variant.ident.as_str());
    text.append(write_body(variant, vis).as_str());
    text.append("    impl visita::Member for ");
    text.append(variant.ident.as_str());
    text.append(" {\n        type Family = ");
    text.append(group.ident.as_str());
    text.append(";\n    }\n    impl<V> visita::Node<V> for ");
    text.append(variant.ident.as_str());
    text.append(" where V: ");
    text.append(bounds);
    text.append(" {}\n    impl ");
    text.append(variant.ident.as_str());
    text.append(" {\n        pub fn to_node(self, data: ");
    text.append(group.payload.as_str());
    text.append(") -> ");
    text.append(group.ident.as_str());
    text.append(" {\n            ");
    text.append(group.ident.as_str());
    text.append(" { node: Box::new(");
    text.append(container);
    text.append("::");
    text.append(variant.ident.as_str());
    text.append("(self)), data }\n        }\n    }\n");
    text
}

fn write_nodes(group: &Group, vis: &str, bounds: &str, container: &str) -> (text: String)
    requires
        vis@ == group@.inner().prefix(),
        bounds@ == bounds_text(group@),
        container@ == group@.container(),
    ensures
        text@ == concat(node_pieces(group@)),
{
    let ghost pieces = node_pieces(group@);
    let mut text = String::new();
    let mut i: usize = 0;
    while i < group.variants.len()
        invariant
            i <= group.variants.len(),
            pieces == node_pieces(group@),
            vis@ == group@.inner().prefix(),
            bounds@ == bounds_text(group@),
            container@ == group@.container(),
            text@ == concat(pieces.take(i as int)),
        decreases group.variants.len() - i,
    {
        proof {
            concat_take(pieces, i as int);
        }
        text.append(write_node(group, i, vis, bounds, container).as_str());
        i = i + 1;
    }
    proof {
        assert(pieces.take(group.variants.len() as int) =~= pieces);
    }
    text
}

fn write_entries(group: &Group) -> (text: String)
    ensures
        text@ == each(group@.entries(), entry_piece()),
{
    let ghost all = group@.entries();
    let ghost piece = entry_piece();
    let mut text = String::new();
    let mut i: usize = 0;
    proof {
        each_none(all, piece);
    }
    while i < group.variants.len()
        invariant
            i <= group.variants.len(),
            all == group@.entries(),
            piece == entry_piece(),
            text@ == each(all.take(i as int), piece),
        decreases group.variants.len() - i,
    {
        proof {
            each_take(all, piece, i as int);
            assert(group@.variants[i as int] == group.variants[i as int]@);
        }
        let mut one = String::from_str("        ");
        one.append(group.variants[i].ident.as_str());
        one.append("(");
        one.append(group.variants[i].ident.as_str());
        one.append("),\n");
        text.append(one.as_str());
        i = i + 1;
    }
    proof {
        each_all(all, piece);
    }
    text
}

fn write_arms(group: &Group, container: &str) -> (text: String)
    ensures
        text@ == each(group@.arms(), arm_piece(container@)),
{
    let ghost all = group@.arms();
    let ghost piece = arm_piece(container@);
    let mut text = String::new();
    let mut i: usize = 0;
    proof {
        each_none(all, piece);
    }
    while i < group.variants.len()
        invariant
            i <= group.variants.len(),
            all == group@.arms(),
            piece == arm_piece(container@),
            text@ == each(all.take(i as int), piece),
        decreases group.variants.len() - i,
    {
        proof {
            each_take(all, piece, i as int);
            assert(group@.variants[i as int] == group.variants[i as int]@);
        }
        let mut one = String::from_str("                ");
        one.append(container);
        one.append("::");
        one.append(group.variants[i].ident.as_str());
        one.append("(node) => visita::Node::<V>::accept(node, v, &self.data),\n");
        text.append(one.as_str());
        i = i + 1;
    }
    proof {
        each_all(all, piece);
    }
    text
}

fn write_exports(group: &Group) -> (text: String)
    ensures
        text@ == each(group@.exports(), export_piece()),
{
    let ghost all = group@.exports();
    let ghost piece = export_piece();
    let mut text = String::new();
    let mut i: usize = 0;
    proof {
        each_none(all, piece);
    }
    while i < group.variants.len()
        invariant
            i <= group.variants.len(),
            all == group@.exports(),
            piece == export_piece(),
            text@ == each(all.take(i as int), piece),
        decreases group.variants.len() - i,
    {
        proof {
            each_take(all, piece, i as int);
            assert(group@.variants[i as int] == group.variants[i as int]@);
        }
        let mut one = String::from_str(", ");
        one.append(group.variants[i].ident.as_str());
        text.append(one.as_str());
        i = i + 1;
    }
    proof {
        each_all(all, piece);
    }
    text
}

fn write_family(group: &Group, vis: &str, bounds: &str, container: &str) -> (text: String)
    requires
        vis@ == group@.inner().prefix(),
        bounds@ == bounds_text(group@),
        container@ == group@.container(),
    ensures
        text@ == family_text(group@),
{
    let mut text = write_attrs(&group.attrs, "    ", "\n");
    text.append("    enum ");
    text.append(container);
    text.append(" {\n");
    text.append(write_entries(group).as_str());
    text.append("    }\n");
    text.append(write_attrs(&group.attrs, "    ", "\n").as_str());
    text.append("    ");
    text.append(vis);
    text.append("struct ");
    text.append(group.ident.as_str());
    text.append(" {\n        node: Box<");
    text.append(container);
    text.append(">,\n        data: ");
    text.append(group.payload.as_str());
    text.append(",\n    }\n    impl<V> visita::NodeFamily<V> for ");
    text.append(group.ident.as_str());
    text.append(" where V: ");
    text.append(bounds);
    text.append(" {\n        type Data = ");
    text.append(group.payload.as_str());
    text.append(
        ";\n        fn accept(&self, v: &mut V) -> <V as visita::Visitor<Self>>::Output {\n            match self.node.as_ref() {\n",
    );
    text.append(write_arms(group, container).as_str());
    text.append("            }\n        }\n    }\n");
    text
}

/// Writes the code of `group`, with its types inside a module named
/// `module`.
pub fn render(group: &Group, module: &str) -> (text: String)
    ensures
        text@ == rendered(group@, module@),
{
    let vis = group.vis.reroot().prefix();
    let bounds = write_bounds(group);
    let mut container = String::from_str(group.ident.as_str());
    container.append("Node");
    let mut text = String::from_str("mod ");
    text.append(module);
    text.append(" {\n    use super::*;\n");
    text.append(write_nodes(group, vis.as_str(), bounds.as_str(), container.as_str()).as_str());
    text.append(write_family(group, vis.as_str(), bounds.as_str(), container.as_str()).as_str());
    text.append("}\n");
    text.append(group.vis.prefix().as_str());
    text.append("use ");
    text.append(module);
    text.append("::{");
    text.append(group.ident.as_str());
    text.append(write_exports(group).as_str());
    text.append("};\n");
    text
}

/// The code generated for `group`: its types stand in a module named like
/// the family, in lower case.
pub open spec fn generated(group: GroupSpec) -> Seq<char> {
    rendered(group, lowercased(group.ident))
}

/// Writes the code of `group`.
pub fn generate(group: &Group) -> (text: String)
    ensures
        text@ == generated(group@),
{
    let module = lowercase(group.ident.as_str());
    render(group, module.as_str())
}

/// What [`node_group`] gives for the arguments `attr` and the item `item`.
pub open spec fn family_code(attr: Seq<char>, item: Seq<char>) -> Result<
    Seq<char>,
    DeclErrorSpec,
> {
    match group_in(attr, item) {
        Ok(group) => Ok(generated(group)),
        Err(e) => Err(e),
    }
}

/// Compiles the declaration of a node group: `attr` holds the arguments,
/// `data = <type>`, and `item` the enum. Gives the code of the family, or
/// the reason why the declaration is refused; nothing is generated from a
/// declaration that is refused.
pub fn node_group(attr: &str, item: &str) -> (r: Result<String, DeclError>)
    ensures
        text_outcome(r) == family_code(attr@, item@),
{
    match group_of(attr, item) {
        Ok(group) => Ok(generate(&group)),
        Err(e) => Err(e),
    }
}

} // verus!
