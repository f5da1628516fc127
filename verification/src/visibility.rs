//! Visibilities, and how one is carried into the module that the generator
//! wraps around the types it emits.
//!
//! The types of a family are emitted inside a module of their own and
//! re-exported from it. What is written in front of them inside that
//! module must open the same scope that the declaration's visibility opens
//! outside it. A visibility that names the crate does so as it stands. One
//! that is written relative to where it stands, with `self` or `super` or
//! by being left out, is re-rooted one level up.

use vstd::prelude::*;
use vstd::string::*;
use crate::text::{copy_texts, reads};

verus! {

/// A visibility, as written in front of an item.
#[derive(Debug, Clone, PartialEq, Eq)]
pub enum Visibility {
    /// `pub`
    Public,
    /// `crate`
    Crate,
    /// `pub(..)`
    Restricted(Restriction),
    /// Nothing written: private to the enclosing module.
    Inherited,
}

/// What stands between the brackets of `pub(..)`.
#[derive(Debug, Clone, PartialEq, Eq)]
pub struct Restriction {
    /// Whether the path is introduced by `in`.
    pub in_token: bool,
    /// Whether the path begins with `::`.
    pub leading_colon: bool,
    /// The segments of the path, such as `crate`, `super` or a module's name.
    pub segments: Vec<String>,
}

/// [`Restriction`] as contracts see it.
pub ghost struct RestrictionSpec {
    pub in_token: bool,
    pub leading_colon: bool,
    pub segments: Seq<Seq<char>>,
}

/// [`Visibility`] as contracts see it.
pub ghost enum VisibilitySpec {
    Public,
    Crate,
    Restricted(RestrictionSpec),
    Inherited,
}

impl View for Restriction {
    type V = RestrictionSpec;

    open spec fn view(&self) -> RestrictionSpec {
        RestrictionSpec {
            in_token: self.in_token,
            leading_colon: self.leading_colon,
            segments: self.segments.deep_view(),
        }
    }
}

impl View for Visibility {
    type V = VisibilitySpec;

    open spec fn view(&self) -> VisibilitySpec {
        match self {
            Visibility::Public => VisibilitySpec::Public,
            Visibility::Crate => VisibilitySpec::Crate,
            Visibility::Restricted(r) => VisibilitySpec::Restricted(r@),
            Visibility::Inherited => VisibilitySpec::Inherited,
        }
    }
}

impl RestrictionSpec {
    /// Whether the path is written relative to the module it stands in.
    pub open spec fn is_relative(self) -> bool {
        &&& !self.leading_colon
        &&& self.segments.len() > 0
        &&& (self.segments[0] == "self"@ || self.segments[0] == "super"@)
    }

    /// The same scope, named from one module further in.
    pub open spec fn rerooted(self) -> RestrictionSpec {
        if !self.is_relative() {
            self
        } else if self.segments[0] == "self"@ {
            RestrictionSpec {
                in_token: true,
                leading_colon: false,
                segments: seq!["super"@] + self.segments.skip(1),
            }
        } else {
            RestrictionSpec {
                in_token: true,
                leading_colon: false,
                segments: seq!["super"@] + self.segments,
            }
        }
    }
}

impl VisibilitySpec {
    /// The visibility that, written one module further in, opens the scope
    /// that `self` opens where it stands.
    pub open spec fn rerooted(self) -> VisibilitySpec {
        match self {
            VisibilitySpec::Public => VisibilitySpec::Public,
            VisibilitySpec::Crate => VisibilitySpec::Crate,
            VisibilitySpec::Restricted(r) => VisibilitySpec::Restricted(r.rerooted()),
            VisibilitySpec::Inherited => VisibilitySpec::Restricted(
                RestrictionSpec {
                    in_token: true,
                    leading_colon: false,
                    segments: seq!["super"@],
                },
            ),
        }
    }
}

/// The segments of a path with `::` between them.
pub open spec fn path_text(segments: Seq<Seq<char>>) -> Seq<char>
    decreases segments.len(),
{
    if segments.len() == 0 {
        Seq::empty()
    } else if segments.len() == 1 {
        segments[0]
    } else {
        path_text(segments.drop_last()) + "::"@ + segments.last()
    }
}

impl RestrictionSpec {
    /// `pub(..)` as it is written.
    pub open spec fn text(self) -> Seq<char> {
        "pub("@ + (if self.in_token {
            "in "@
        } else {
            Seq::empty()
        }) + (if self.leading_colon {
            "::"@
        } else {
            Seq::empty()
        }) + path_text(self.segments) + ")"@
    }
}

impl VisibilitySpec {
    /// What is written in front of an item: the visibility and a space, or
    /// nothing for a private item.
    pub open spec fn prefix(self) -> Seq<char> {
        match self {
            VisibilitySpec::Public => "pub "@,
            VisibilitySpec::Crate => "crate "@,
            VisibilitySpec::Restricted(r) => r.text() + " "@,
            VisibilitySpec::Inherited => Seq::empty(),
        }
    }
}

impl Restriction {
    /// Writes `pub(..)`.
    pub fn text(&self) -> (text: String)
        ensures
            text@ == self@.text(),
    {
        let ghost segments = self.segments.deep_view();
        let mut path = String::new();
        let mut i: usize = 0;
        while i < self.segments.len()
            invariant
                i <= self.segments.len(),
                segments == self.segments.deep_view(),
                path@ == path_text(segments.take(i as int)),
            decreases self.segments.len() - i,
        {
            proof {
                assert(segments.take(i + 1).drop_last() =~= segments.take(i as int));
                assert(segments[i as int] == self.segments[i as int]@);
            }
            if i > 0 {
                path.append("::");
            }
            path.append(self.segments[i].as_str());
            i = i + 1;
        }
        proof {
            assert(segments.take(self.segments.len() as int) =~= segments);
        }
        let mut text = String::from_str("pub(");
        if self.in_token {
            text.append("in ");
        }
        assert(text@ =~= "pub("@ + (if self.in_token {
            "in "@
        } else {
            Seq::empty()
        }));
        let ghost head = text@;
        if self.leading_colon {
            text.append("::");
        }
        assert(text@ =~= head + (if self.leading_colon {
            "::"@
        } else {
            Seq::empty()
        }));
        text.append(path.as_str());
        text.append(")");
        text
    }
}

/// Where an item can be named from.
pub ghost enum Scope {
    /// From anywhere.
    Everywhere,
    /// From the module with this path from the crate's root, and from the
    /// modules inside it.
    Within(Seq<Seq<char>>),
}

/// The module that encloses `module`; the crate's root has none.
pub open spec fn parent(module: Seq<Seq<char>>) -> Option<Seq<Seq<char>>> {
    if module.len() == 0 {
        None
    } else {
        Some(module.drop_last())
    }
}

/// Where one segment of a path leads from the module `at`: `super` leads
/// out, a name leads in, and `self` and `crate` may only begin a path.
pub open spec fn step(at: Seq<Seq<char>>, segment: Seq<char>) -> Option<Seq<Seq<char>>> {
    if segment == "super"@ {
        parent(at)
    } else if segment == "self"@ || segment == "crate"@ {
        None
    } else {
        Some(at.push(segment))
    }
}

/// Where `segments` lead from `at`, if they lead anywhere.
pub open spec fn walk(at: Option<Seq<Seq<char>>>, segments: Seq<Seq<char>>) -> Option<
    Seq<Seq<char>>,
>
    decreases segments.len(),
{
    if segments.len() == 0 {
        at
    } else {
        match at {
            None => None,
            Some(module) => walk(step(module, segments[0]), segments.skip(1)),
        }
    }
}

impl RestrictionSpec {
    /// The module that the path names when it is written in the module
    /// `site`. A path that begins with `crate`, with `::` or with a plain
    /// name is read from the crate's root.
    pub open spec fn target(self, site: Seq<Seq<char>>) -> Option<Seq<Seq<char>>> {
        if self.segments.len() == 0 {
            None
        } else if self.leading_colon {
            walk(Some(Seq::empty()), self.segments)
        } else if self.segments[0] == "crate"@ {
            walk(Some(Seq::empty()), self.segments.skip(1))
        } else if self.segments[0] == "self"@ {
            walk(Some(site), self.segments.skip(1))
        } else if self.segments[0] == "super"@ {
            walk(parent(site), self.segments.skip(1))
        } else {
            walk(Some(seq![self.segments[0]]), self.segments.skip(1))
        }
    }
}

impl VisibilitySpec {
    /// The scope that `self` opens for an item declared in the module
    /// `site`. `None` where the visibility is not valid there: its path
    /// leads nowhere, or to a module that does not enclose `site`.
    pub open spec fn scope(self, site: Seq<Seq<char>>) -> Option<Scope> {
        match self {
            VisibilitySpec::Public => Some(Scope::Everywhere),
            VisibilitySpec::Crate => Some(Scope::Within(Seq::empty())),
            VisibilitySpec::Inherited => Some(Scope::Within(site)),
            VisibilitySpec::Restricted(r) => match r.target(site) {
                Some(module) => if module.is_prefix_of(site) {
                    Some(Scope::Within(module))
                } else {
                    None
                },
                None => None,
            },
        }
    }
}

/// The three words that a path may begin with are three different words.
proof fn path_words_differ()
    ensures
        "super"@ != "self"@,
        "super"@ != "crate"@,
        "self"@ != "crate"@,
{
    reveal_strlit("super");
    reveal_strlit("self");
    reveal_strlit("crate");
    assert("super"@.len() == 5);
    assert("self"@.len() == 4);
    assert("crate"@[0] == 'c');
    assert("super"@[0] == 's');
}

/// Re-rooting keeps the scope. A type declared in the module `site` with a
/// visibility that is valid there, and emitted inside a module `module` of
/// `site` with the re-rooted visibility, can be named from exactly where
/// the declaration said.
pub proof fn rerooting_keeps_the_scope(
    vis: VisibilitySpec,
    site: Seq<Seq<char>>,
    module: Seq<char>,
)
    requires
        vis.scope(site) is Some,
    ensures
        vis.rerooted().scope(site.push(module)) == vis.scope(site),
{
    path_words_differ();
    let inside = site.push(module);
    assert(parent(inside) == Some(site)) by {
        assert(inside.drop_last() =~= site);
    }
    match vis {
        VisibilitySpec::Public => {},
        VisibilitySpec::Crate => {},
        VisibilitySpec::Inherited => {
            let r = vis.rerooted()->Restricted_0;
            assert(r.segments[0] == "super"@);
            assert(r.segments.skip(1) =~= Seq::<Seq<char>>::empty());
            assert(r.target(inside) == Some(site));
            assert(site.is_prefix_of(inside));
        },
        VisibilitySpec::Restricted(r) => {
            let module_named = r.target(site)->Some_0;
            assert(module_named.is_prefix_of(inside));
            if !r.is_relative() {
                assert(r.rerooted() == r);
                assert(r.target(inside) == r.target(site));
            } else if r.segments[0] == "self"@ {
                let q = r.rerooted();
                assert(q.segments[0] == "super"@);
                assert(q.segments.skip(1) =~= r.segments.skip(1));
                assert(q.target(inside) == r.target(site));
            } else {
                let q = r.rerooted();
                assert(q.segments[0] == "super"@);
                assert(q.segments.skip(1) =~= r.segments);
                assert(walk(Some(site), r.segments) == walk(
                    step(site, r.segments[0]),
                    r.segments.skip(1),
                ));
                assert(q.target(inside) == r.target(site));
            }
        },
    }
}

impl Visibility {
    /// Writes the visibility as it stands in front of an item, with the
    /// space that parts it from the item.
    pub fn prefix(&self) -> (text: String)
        ensures
            text@ == self@.prefix(),
    {
        match self {
            Visibility::Public => String::from_str("pub "),
            Visibility::Crate => String::from_str("crate "),
            Visibility::Inherited => String::new(),
            Visibility::Restricted(r) => {
                let mut text = r.text();
                text.append(" ");
                text
            },
        }
    }

    /// The visibility to write inside the generated module for what was
    /// declared with `self` outside it.
    pub fn reroot(&self) -> (inner: Visibility)
        ensures
            inner@ == self@.rerooted(),
    {
        match self {
            Visibility::Public => Visibility::Public,
            Visibility::Crate => Visibility::Crate,
            Visibility::Inherited => {
                let mut segments: Vec<String> = Vec::new();
                segments.push(String::from_str("super"));
                assert(segments.deep_view() =~= seq!["super"@]);
                Visibility::Restricted(
                    Restriction { in_token: true, leading_colon: false, segments },
                )
            },
            Visibility::Restricted(r) => {
                let ghost old_segments = r.segments.deep_view();
                let relative_self = !r.leading_colon && r.segments.len() > 0 && reads(
                    &r.segments[0],
                    "self",
                );
                let relative_super = !r.leading_colon && r.segments.len() > 0 && reads(
                    &r.segments[0],
                    "super",
                );
                assert(r.segments.len() > 0 ==> old_segments[0] == r.segments[0]@);
                if relative_self || relative_super {
                    let mut segments: Vec<String> = Vec::new();
                    segments.push(String::from_str("super"));
                    let mut i: usize = if relative_self {
                        1
                    } else {
                        0
                    };
                    let ghost from = i;
                    while i < r.segments.len()
                        invariant
                            from <= i <= r.segments.len(),
                            old_segments == r.segments.deep_view(),
                            segments.deep_view() == seq!["super"@] + old_segments.subrange(
                                from as int,
                                i as int,
                            ),
                        decreases r.segments.len() - i,
                    {
                        let ghost before = segments.deep_view();
                        segments.push(r.segments[i].clone());
                        assert(segments.deep_view() =~= before.push(r.segments[i as int]@));
                        assert(old_segments[i as int] == r.segments[i as int]@);
                        assert(segments.deep_view() =~= seq!["super"@] + old_segments.subrange(
                            from as int,
                            i + 1,
                        ));
                        i = i + 1;
                    }
                    assert(old_segments.subrange(from as int, old_segments.len() as int)
                        =~= old_segments.skip(from as int));
                    assert(old_segments.skip(0) =~= old_segments);
                    Visibility::Restricted(
                        Restriction { in_token: true, leading_colon: false, segments },
                    )
                } else {
                    Visibility::Restricted(
                        Restriction {
                            in_token: r.in_token,
                            leading_colon: r.leading_colon,
                            segments: copy_texts(&r.segments),
                        },
                    )
                }
            },
        }
    }
}

} // verus!
