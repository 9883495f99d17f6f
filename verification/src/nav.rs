//! Scroll-driven navigation state: which section is "in view".
//!
//! On every scroll event the host hands over the scroll offset, the viewport
//! height and each section's top offset (absent when the element could not
//! be found). The active section is decided here; the host only re-renders
//! from the published state.

use vstd::prelude::*;

use crate::sections::SectionId;
use crate::sections::SECTION_COUNT;

verus! {

/// Section `j`'s top offset is known and lies at or above the probe point:
/// the viewer has scrolled past its start.
pub open spec fn section_reached(tops: Seq<Option<i64>>, probe: int, j: int) -> bool {
    &&& 0 <= j < tops.len()
    &&& tops[j] is Some
    &&& tops[j]->0 <= probe
}

/// Rank of the active section among the first `j`: the last reached one, or
/// 0 when none is reached.
pub open spec fn spec_active_rank(tops: Seq<Option<i64>>, probe: int, j: int) -> int
    decreases j,
{
    if j <= 0 {
        0
    } else if section_reached(tops, probe, j - 1) {
        j - 1
    } else {
        spec_active_rank(tops, probe, j - 1)
    }
}

/// The section published as active for a given layout and probe point.
pub open spec fn spec_active_section(tops: Seq<Option<i64>>, probe: int) -> SectionId {
    SectionId::spec_from_rank(spec_active_rank(tops, probe, tops.len() as int))
}

/// The active rank stays within the first `j` sections.
pub proof fn lemma_active_rank_bounds(tops: Seq<Option<i64>>, probe: int, j: int)
    ensures
        0 <= spec_active_rank(tops, probe, j),
        j > 0 ==> spec_active_rank(tops, probe, j) < j,
        j <= 0 ==> spec_active_rank(tops, probe, j) == 0,
    decreases j,
{
    if j > 0 && !section_reached(tops, probe, j - 1) {
        lemma_active_rank_bounds(tops, probe, j - 1);
    }
}

/// The active rank is the greatest reached rank: nothing above it is
/// reached, and it is itself reached unless nothing is (then it is 0).
pub proof fn lemma_active_rank_is_last_reached(tops: Seq<Option<i64>>, probe: int, j: int)
    ensures
        forall|k: int|
            spec_active_rank(tops, probe, j) < k < j ==> !section_reached(tops, probe, k),
        section_reached(tops, probe, spec_active_rank(tops, probe, j)) || spec_active_rank(
            tops,
            probe,
            j,
        ) == 0,
    decreases j,
{
    if j > 0 && !section_reached(tops, probe, j - 1) {
        lemma_active_rank_is_last_reached(tops, probe, j - 1);
        lemma_active_rank_bounds(tops, probe, j - 1);
    }
}

/// A reached section is never outranked by an earlier one: the active rank
/// is at least every reached rank. Between two reached sections the one
/// declared later wins.
pub proof fn lemma_later_reached_wins(tops: Seq<Option<i64>>, probe: int, j: int, k: int)
    requires
        section_reached(tops, probe, k),
        k < j,
    ensures
        spec_active_rank(tops, probe, j) >= k,
    decreases j,
{
    if j > 0 && !section_reached(tops, probe, j - 1) {
        lemma_later_reached_wins(tops, probe, j - 1, k);
    }
}

/// When the probe sits above every known section top, the default wins:
/// the active section is the first one.
pub proof fn lemma_above_all_sections_is_intro(tops: Seq<Option<i64>>, probe: int)
    requires
        forall|j: int|
            0 <= j < tops.len() && (#[trigger] tops[j]) is Some ==> probe < tops[j]->0,
    ensures
        spec_active_section(tops, probe) == SectionId::Intro,
{
    lemma_no_section_reached_rank(tops, probe, tops.len() as int);
}

proof fn lemma_no_section_reached_rank(tops: Seq<Option<i64>>, probe: int, j: int)
    requires
        forall|j: int|
            0 <= j < tops.len() && (#[trigger] tops[j]) is Some ==> probe < tops[j]->0,
    ensures
        spec_active_rank(tops, probe, j) == 0,
    decreases j,
{
    if j > 0 {
        lemma_no_section_reached_rank(tops, probe, j - 1);
    }
}

/// For a layout whose sections appear in page order, any scroll position
/// above the first section's top resolves to the first section.
pub proof fn lemma_below_first_section_is_intro(tops: Seq<Option<i64>>, probe: int)
    requires
        tops.len() > 0,
        tops[0] is Some,
        probe < tops[0]->0,
        forall|j: int|
            0 < j < tops.len() && (#[trigger] tops[j]) is Some ==> tops[0]->0 <= tops[j]->0,
    ensures
        spec_active_section(tops, probe) == SectionId::Intro,
{
    lemma_above_all_sections_is_intro(tops, probe);
}

/// On a fully laid-out page (every offset known, sections in ascending
/// order) the scan picks exactly the section whose region holds the probe:
/// its own top is at or above the probe, and the next section's top, if
/// any, is below it.
pub proof fn lemma_active_region_holds_probe(tops: Seq<Option<i64>>, probe: int)
    requires
        tops.len() > 0,
        forall|j: int| 0 <= j < tops.len() ==> (#[trigger] tops[j]) is Some,
        forall|a: int, b: int|
            0 <= a <= b < tops.len() ==> (#[trigger] tops[a])->0 <= (#[trigger] tops[b])->0,
        tops[0]->0 <= probe,
    ensures
        ({
            let k = spec_active_rank(tops, probe, tops.len() as int);
            &&& 0 <= k < tops.len()
            &&& tops[k]->0 <= probe
            &&& k + 1 < tops.len() ==> probe < tops[k + 1]->0
        }),
{
    let len = tops.len() as int;
    let k = spec_active_rank(tops, probe, len);
    lemma_active_rank_bounds(tops, probe, len);
    lemma_active_rank_is_last_reached(tops, probe, len);
    if k + 1 < len {
        assert(!section_reached(tops, probe, k + 1));
    }
}

/// The published state depends on the scroll event's inputs alone, never on
/// the state that was current before it: a stale previous value can never
/// leak into the result.
pub proof fn lemma_scrolled_ignores_previous_state(
    t1: NavigationTracker,
    t2: NavigationTracker,
    tops: Seq<Option<i64>>,
    probe: int,
)
    ensures
        spec_scrolled(t1, tops, probe) == spec_scrolled(t2, tops, probe),
{
}

/// The probe point: the midpoint of the visible viewport, in document
/// coordinates.
pub fn probe_point(scroll_offset: i64, viewport_height: i64) -> (p: i64)
    requires
        0 <= scroll_offset,
        0 <= viewport_height,
        scroll_offset + viewport_height <= i64::MAX,
    ensures
        p == scroll_offset + viewport_height / 2,
{
    scroll_offset + viewport_height / 2
}

/// Decide the active section: walk the section list in reverse declaration
/// order and take the first whose known top offset is at or above the probe;
/// sections whose offset could not be determined are skipped; when none
/// qualifies the first section is the default.
pub fn active_section(tops: &Vec<Option<i64>>, probe: i64) -> (r: SectionId)
    requires
        tops@.len() == SECTION_COUNT,
    ensures
        r == spec_active_section(tops@, probe as int),
{
    let mut j: usize = tops.len();
    while j > 0
        invariant
            j <= tops@.len(),
            spec_active_rank(tops@, probe as int, tops@.len() as int) == spec_active_rank(
                tops@,
                probe as int,
                j as int,
            ),
        decreases j,
    {
        j = j - 1;
        match tops[j] {
            Option::Some(top) => {
                if top <= probe {
                    return SectionId::from_rank(j);
                }
            },
            Option::None => {},
        }
    }
    SectionId::Intro
}

/// Whether the navigation bar condenses its chrome: it does once the page
/// is scrolled past a small fixed threshold.
pub fn navbar_condensed(scroll_offset: i64) -> (b: bool)
    ensures
        b == (scroll_offset > 10),
{
    scroll_offset > 10
}

/// The observable navigation state: one writer (the scroll handler), many
/// readers.
pub struct NavigationTracker {
    pub active: SectionId,
}

/// The state the tracker publishes after handling a scroll event. It
/// depends only on the event's inputs, never on the state before it.
pub open spec fn spec_scrolled(
    t: NavigationTracker,
    tops: Seq<Option<i64>>,
    probe: int,
) -> NavigationTracker {
    NavigationTracker { active: spec_active_section(tops, probe) }
}

impl NavigationTracker {
    /// Mount the tracker; the initial active section is the first one.
    pub fn new() -> (t: Self)
        ensures
            t.active == SectionId::Intro,
    {
        NavigationTracker { active: SectionId::Intro }
    }

    /// Handle one scroll event: publish the section whose region holds the
    /// viewport midpoint. Publishing the same value again is harmless.
    pub fn on_scroll(&mut self, scroll_offset: i64, viewport_height: i64, tops: &Vec<Option<i64>>)
        requires
            0 <= scroll_offset,
            0 <= viewport_height,
            scroll_offset + viewport_height <= i64::MAX,
            tops@.len() == SECTION_COUNT,
        ensures
            *final (self) == spec_scrolled(
                *old(self),
                tops@,
                scroll_offset + viewport_height / 2,
            ),
    {
        let probe = probe_point(scroll_offset, viewport_height);
        self.active = active_section(tops, probe);
    }
}

/// Handling the same scroll event twice publishes the same state: the
/// second step changes nothing.
pub proof fn lemma_on_scroll_idempotent(
    t: NavigationTracker,
    tops: Seq<Option<i64>>,
    probe: int,
)
    ensures
        spec_scrolled(spec_scrolled(t, tops, probe), tops, probe) == spec_scrolled(
            t,
            tops,
            probe,
        ),
{
}

} // verus!
