use visita::visibility::{Restriction, Visibility};

fn restricted(in_token: bool, leading_colon: bool, segments: &[&str]) -> Visibility {
    Visibility::Restricted(Restriction {
        in_token,
        leading_colon,
        segments: segments.iter().map(|s| s.to_string()).collect(),
    })
}

#[test]
fn public_and_crate_need_no_rerooting() {
    assert_eq!(Visibility::Public.reroot(), Visibility::Public);
    assert_eq!(Visibility::Crate.reroot(), Visibility::Crate);
}

#[test]
fn private_becomes_visible_in_the_enclosing_module() {
    assert_eq!(Visibility::Inherited.reroot(), restricted(true, false, &["super"]));
}

#[test]
fn self_becomes_super() {
    assert_eq!(restricted(false, false, &["self"]).reroot(), restricted(true, false, &["super"]));
    assert_eq!(restricted(true, false, &["self"]).reroot(), restricted(true, false, &["super"]));
}

#[test]
fn super_gains_a_level() {
    assert_eq!(
        restricted(false, false, &["super"]).reroot(),
        restricted(true, false, &["super", "super"])
    );
    assert_eq!(
        restricted(true, false, &["super", "super"]).reroot(),
        restricted(true, false, &["super", "super", "super"])
    );
}

#[test]
fn paths_from_the_crate_stay_as_they_are() {
    assert_eq!(restricted(false, false, &["crate"]).reroot(), restricted(false, false, &["crate"]));
    assert_eq!(
        restricted(true, false, &["crate", "ast", "expr"]).reroot(),
        restricted(true, false, &["crate", "ast", "expr"])
    );
    assert_eq!(restricted(true, true, &["ast"]).reroot(), restricted(true, true, &["ast"]));
    assert_eq!(restricted(true, false, &["ast"]).reroot(), restricted(true, false, &["ast"]));
    assert_eq!(restricted(true, true, &["super"]).reroot(), restricted(true, true, &["super"]));
}

#[test]
fn an_empty_path_stays_empty() {
    assert_eq!(restricted(true, false, &[]).reroot(), restricted(true, false, &[]));
}

#[test]
fn visibilities_as_written() {
    assert_eq!(Visibility::Public.prefix(), "pub ");
    assert_eq!(Visibility::Crate.prefix(), "crate ");
    assert_eq!(Visibility::Inherited.prefix(), "");
    assert_eq!(restricted(false, false, &["crate"]).prefix(), "pub(crate) ");
    assert_eq!(restricted(true, false, &["super", "super"]).prefix(), "pub(in super::super) ");
    assert_eq!(restricted(true, true, &["ast", "expr"]).prefix(), "pub(in ::ast::expr) ");
}

#[test]
fn a_restriction_as_written() {
    let r = Restriction {
        in_token: true,
        leading_colon: false,
        segments: vec!["crate".to_string(), "a".to_string(), "b".to_string()],
    };
    assert_eq!(r.text(), "pub(in crate::a::b)");
    let empty = Restriction { in_token: false, leading_colon: false, segments: Vec::new() };
    assert_eq!(empty.text(), "pub()");
}
