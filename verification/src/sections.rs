//! The fixed, ordered set of page sections used for navigation.

use vstd::prelude::*;

use crate::text::str_eq;

verus! {

/// A logical page region, in declaration order: intro, work, thoughts,
/// footer. Navigation highlighting and scroll tracking speak in these.
#[derive(Clone, Copy, Debug, PartialEq, Eq, Structural)]
pub enum SectionId {
    Intro,
    Work,
    Thoughts,
    Footer,
}

/// How many sections the page declares.
pub const SECTION_COUNT: usize = 4;

impl SectionId {
    /// Position of the section in declaration order.
    pub open spec fn spec_rank(self) -> int {
        match self {
            SectionId::Intro => 0,
            SectionId::Work => 1,
            SectionId::Thoughts => 2,
            SectionId::Footer => 3,
        }
    }

    /// Section at a given position in declaration order; out-of-range
    /// positions fall back to the first section.
    pub open spec fn spec_from_rank(r: int) -> SectionId {
        if r == 1 {
            SectionId::Work
        } else if r == 2 {
            SectionId::Thoughts
        } else if r == 3 {
            SectionId::Footer
        } else {
            SectionId::Intro
        }
    }

    pub fn rank(self) -> (r: usize)
        ensures
            r == self.spec_rank(),
    {
        match self {
            SectionId::Intro => 0,
            SectionId::Work => 1,
            SectionId::Thoughts => 2,
            SectionId::Footer => 3,
        }
    }

    pub fn from_rank(r: usize) -> (s: SectionId)
        ensures
            s == SectionId::spec_from_rank(r as int),
    {
        if r == 1 {
            SectionId::Work
        } else if r == 2 {
            SectionId::Thoughts
        } else if r == 3 {
            SectionId::Footer
        } else {
            SectionId::Intro
        }
    }

    /// The fragment identifier naming the section's content region.
    pub open spec fn spec_id(self) -> Seq<char> {
        match self {
            SectionId::Intro => "intro"@,
            SectionId::Work => "work"@,
            SectionId::Thoughts => "thoughts"@,
            SectionId::Footer => "footer"@,
        }
    }

    pub fn id_str(self) -> (s: &'static str)
        ensures
            s@ == self.spec_id(),
    {
        match self {
            SectionId::Intro => "intro",
            SectionId::Work => "work",
            SectionId::Thoughts => "thoughts",
            SectionId::Footer => "footer",
        }
    }

    /// The section a fragment identifier names, if any.
    pub open spec fn spec_from_id(s: Seq<char>) -> Option<SectionId> {
        if s == "intro"@ {
            Option::Some(SectionId::Intro)
        } else if s == "work"@ {
            Option::Some(SectionId::Work)
        } else if s == "thoughts"@ {
            Option::Some(SectionId::Thoughts)
        } else if s == "footer"@ {
            Option::Some(SectionId::Footer)
        } else {
            Option::None
        }
    }

    pub fn from_id(s: &str) -> (r: Option<SectionId>)
        ensures
            r == SectionId::spec_from_id(s@),
    {
        if str_eq(s, "intro") {
            Option::Some(SectionId::Intro)
        } else if str_eq(s, "work") {
            Option::Some(SectionId::Work)
        } else if str_eq(s, "thoughts") {
            Option::Some(SectionId::Thoughts)
        } else if str_eq(s, "footer") {
            Option::Some(SectionId::Footer)
        } else {
            Option::None
        }
    }
}

/// Ranks and sections correspond one to one.
pub proof fn lemma_rank_roundtrip(s: SectionId)
    ensures
        SectionId::spec_from_rank(s.spec_rank()) == s,
        0 <= s.spec_rank() < SECTION_COUNT,
{
}

/// The display name shown for a section identifier; an unknown identifier
/// is shown as itself.
pub open spec fn spec_section_name(s: Seq<char>) -> Seq<char> {
    if s == "intro"@ {
        "Home"@
    } else if s == "work"@ {
        "Work"@
    } else if s == "thoughts"@ {
        "Thoughts"@
    } else if s == "footer"@ {
        "Contact"@
    } else {
        s
    }
}

pub fn get_section_name(section: &str) -> (r: String)
    ensures
        r@ == spec_section_name(section@),
{
    if str_eq(section, "intro") {
        "Home".to_owned()
    } else if str_eq(section, "work") {
        "Work".to_owned()
    } else if str_eq(section, "thoughts") {
        "Thoughts".to_owned()
    } else if str_eq(section, "footer") {
        "Contact".to_owned()
    } else {
        section.to_owned()
    }
}

} // verus!
