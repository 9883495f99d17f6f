//! In-page link interception: resolving the nearest enclosing anchor of a
//! clicked element, and deciding whether its target is a same-document
//! fragment worth animating to.
//!
//! The element tree arrives as plain data: one node per element on the path
//! from the document root, each pointing at its parent, parents listed
//! before their children. The unverified shell builds it from the live
//! document and performs the scroll the decision calls for.

use vstd::prelude::*;

verus! {

/// One element of the tree, as the interception logic sees it: whether it
/// is an anchor, its link target if any, and its parent's index.
pub struct ElementNode {
    pub is_anchor: bool,
    pub href: Option<String>,
    pub parent: Option<usize>,
}

/// Parents stand before their children, so every upward walk ends.
pub open spec fn wf_tree(tree: Seq<ElementNode>) -> bool {
    forall|i: int|
        0 <= i < tree.len() && (#[trigger] tree[i]).parent is Some ==> tree[i].parent->0 < i
}

/// The nearest enclosing anchor of node `i`: itself if it is one, else the
/// nearest enclosing anchor of its parent.
pub open spec fn spec_nearest_anchor(tree: Seq<ElementNode>, i: int) -> Option<int>
    decreases i,
    when wf_tree(tree) && 0 <= i < tree.len()
{
    if tree[i].is_anchor {
        Option::Some(i)
    } else {
        match tree[i].parent {
            Option::None => Option::None,
            Option::Some(p) => spec_nearest_anchor(tree, p as int),
        }
    }
}

/// Walk upward from the event's original target to the closest anchor
/// element, if the path holds one.
pub fn nearest_anchor(tree: &Vec<ElementNode>, start: usize) -> (r: Option<usize>)
    requires
        wf_tree(tree@),
        start < tree@.len(),
    ensures
        match r {
            Option::Some(k) => {
                &&& k < tree@.len()
                &&& spec_nearest_anchor(tree@, start as int) == Option::Some(k as int)
            },
            Option::None => spec_nearest_anchor(tree@, start as int) is None,
        },
{
    let mut cur: usize = start;
    loop
        invariant
            wf_tree(tree@),
            cur < tree@.len(),
            spec_nearest_anchor(tree@, start as int) == spec_nearest_anchor(tree@, cur as int),
        decreases cur,
    {
        if tree[cur].is_anchor {
            return Option::Some(cur);
        }
        match tree[cur].parent {
            Option::None => {
                return Option::None;
            },
            Option::Some(p) => {
                cur = p;
            },
        }
    }
}

/// The fragment with its leading hash marks removed.
pub open spec fn spec_strip_hashes(s: Seq<char>) -> Seq<char>
    decreases s.len(),
{
    if s.len() > 0 && s[0] == '#' {
        spec_strip_hashes(s.skip(1))
    } else {
        s
    }
}

/// Once the leading hash marks are passed, stripping them is skipping them.
proof fn lemma_strip_hashes_skip(s: Seq<char>, i: int)
    requires
        0 <= i <= s.len(),
        forall|k: int| 0 <= k < i ==> s[k] == '#',
        i < s.len() ==> s[i] != '#',
    ensures
        spec_strip_hashes(s) == s.skip(i),
    decreases i,
{
    if i == 0 {
        assert(s.skip(0) =~= s);
    } else {
        let t = s.skip(1);
        assert(forall|k: int| 0 <= k < i - 1 ==> t[k] == '#');
        lemma_strip_hashes_skip(t, i - 1);
        assert(t.skip(i - 1) =~= s.skip(i));
    }
}

/// The navigation target a link's destination asks for: the fragment
/// identifier when the destination is a same-document fragment other than
/// the bare "#", and nothing otherwise.
pub open spec fn spec_fragment_target(href: Seq<char>) -> Option<Seq<char>> {
    if href.len() >= 2 && href[0] == '#' {
        Option::Some(spec_strip_hashes(href))
    } else {
        Option::None
    }
}

/// A link built for an in-page target round-trips: prefixing a hash mark to
/// any non-empty fragment that does not itself start with one gives a
/// destination that is intercepted and resolves back to that fragment.
pub proof fn lemma_fragment_round_trip(s: Seq<char>)
    requires
        s.len() > 0,
        s[0] != '#',
    ensures
        spec_fragment_target(seq!['#'] + s) == Option::Some(s),
{
    reveal_with_fuel(spec_strip_hashes, 2);
    let h = seq!['#'] + s;
    assert(h[0] == '#');
    assert(h.skip(1) =~= s);
    assert(spec_strip_hashes(s) == s);
}

/// Decide whether a link destination is intercepted, and to which fragment
/// the page should animate. A destination of just "#", or one that is not a
/// fragment at all, keeps the host's default behaviour.
pub fn fragment_target(href: &str) -> (r: Option<String>)
    ensures
        (r is Some) == (spec_fragment_target(href@) is Some),
        r is Some ==> r->0@ == spec_fragment_target(href@)->0,
{
    let len: usize = href.unicode_len();
    if len < 2 {
        return Option::None;
    }
    if href.get_char(0) != '#' {
        return Option::None;
    }
    let mut i: usize = 0;
    while i < len && href.get_char(i) == '#'
        invariant
            i <= len,
            len == href@.len(),
            forall|k: int| 0 <= k < i ==> href@[k] == '#',
        decreases len - i,
    {
        i = i + 1;
    }
    proof {
        lemma_strip_hashes_skip(href@, i as int);
    }
    let target = href.substring_char(i, len);
    proof {
        assert(target@ =~= href@.skip(i as int));
    }
    Option::Some(target.to_owned())
}

/// What a click on node `start` leads to: the fragment to navigate to when
/// the nearest enclosing anchor carries an intercepted destination.
pub open spec fn spec_intercept_click(tree: Seq<ElementNode>, start: int) -> Option<Seq<char>> {
    match spec_nearest_anchor(tree, start) {
        Option::None => Option::None,
        Option::Some(k) => match tree[k].href {
            Option::None => Option::None,
            Option::Some(h) => spec_fragment_target(h@),
        },
    }
}

/// Handle one click: resolve the nearest enclosing anchor of the clicked
/// element and, when its destination is an intercepted fragment, hand back
/// the fragment the page should animate to. `None` leaves the click to the
/// host's default behaviour.
pub fn intercept_click(tree: &Vec<ElementNode>, start: usize) -> (r: Option<String>)
    requires
        wf_tree(tree@),
        start < tree@.len(),
    ensures
        (r is Some) == (spec_intercept_click(tree@, start as int) is Some),
        r is Some ==> r->0@ == spec_intercept_click(tree@, start as int)->0,
{
    match nearest_anchor(tree, start) {
        Option::None => Option::None,
        Option::Some(k) => match &tree[k].href {
            Option::None => Option::None,
            Option::Some(h) => fragment_target(h.as_str()),
        },
    }
}

} // verus!
