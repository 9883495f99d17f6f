use edgarcnp_dev::anchor::{fragment_target, intercept_click, nearest_anchor, ElementNode};
use edgarcnp_dev::sections::SectionId;

fn node(is_anchor: bool, href: Option<&str>, parent: Option<usize>) -> ElementNode {
    ElementNode { is_anchor, href: href.map(|h| h.to_string()), parent }
}

#[test]
fn fragment_target_accepts_section_fragments() {
    assert_eq!(fragment_target("#work").as_deref(), Some("work"));
    assert_eq!(fragment_target("#footer").as_deref(), Some("footer"));
}

#[test]
fn bare_hash_is_not_intercepted() {
    assert_eq!(fragment_target("#"), None);
}

#[test]
fn absolute_urls_are_not_intercepted() {
    assert_eq!(fragment_target("https://example.com"), None);
    assert_eq!(fragment_target("work"), None);
    assert_eq!(fragment_target(""), None);
}

#[test]
fn every_leading_hash_is_stripped() {
    assert_eq!(fragment_target("##work").as_deref(), Some("work"));
    assert_eq!(fragment_target("##").as_deref(), Some(""));
}

#[test]
fn nearest_anchor_resolves_from_descendants() {
    // div > a > span: the click lands on the span inside the link.
    let tree = vec![
        node(false, None, None),
        node(true, Some("#work"), Some(0)),
        node(false, None, Some(1)),
    ];
    assert_eq!(nearest_anchor(&tree, 2), Some(1));
    assert_eq!(nearest_anchor(&tree, 1), Some(1));
    assert_eq!(nearest_anchor(&tree, 0), None);
}

#[test]
fn nearest_anchor_prefers_the_innermost() {
    let tree = vec![
        node(true, Some("#intro"), None),
        node(true, Some("#work"), Some(0)),
        node(false, None, Some(1)),
    ];
    assert_eq!(nearest_anchor(&tree, 2), Some(1));
}

#[test]
fn click_inside_section_link_is_intercepted() {
    let tree = vec![
        node(false, None, None),
        node(true, Some("#work"), Some(0)),
        node(false, None, Some(1)),
    ];
    let target = intercept_click(&tree, 2);
    assert_eq!(target.as_deref(), Some("work"));
    assert_eq!(SectionId::from_id(&target.unwrap()), Some(SectionId::Work));
}

#[test]
fn click_on_bare_hash_link_is_not_intercepted() {
    let tree = vec![node(false, None, None), node(true, Some("#"), Some(0))];
    assert_eq!(intercept_click(&tree, 1), None);
}

#[test]
fn click_on_external_link_is_not_intercepted() {
    let tree = vec![node(true, Some("https://example.com"), None)];
    assert_eq!(intercept_click(&tree, 0), None);
}

#[test]
fn click_outside_any_link_is_not_intercepted() {
    let tree = vec![
        node(false, None, None),
        node(false, None, Some(0)),
        node(false, None, Some(1)),
    ];
    assert_eq!(intercept_click(&tree, 2), None);
}

#[test]
fn anchor_without_href_is_not_intercepted() {
    let tree = vec![node(false, None, None), node(true, None, Some(0))];
    assert_eq!(intercept_click(&tree, 1), None);
}
