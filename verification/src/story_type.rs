//! The feed categories and their fixed names.

use vstd::prelude::*;

verus! {

/// One of the six feeds, or the lookup of a single item by its id.
#[derive(Debug, Clone, Copy, PartialEq, Eq, Structural)]
pub enum StoryType {
    Top,
    New,
    Best,
    Ask,
    Show,
    Job,
    Item,
}

impl StoryType {
    /// The path segment under which the service publishes this category.
    pub open spec fn segment(self) -> Seq<char> {
        match self {
            StoryType::Top => "topstories"@,
            StoryType::New => "newstories"@,
            StoryType::Best => "beststories"@,
            StoryType::Ask => "askstories"@,
            StoryType::Show => "showstories"@,
            StoryType::Job => "jobstories"@,
            StoryType::Item => "item"@,
        }
    }

    /// The name under which a feed is announced in a report; `Item` has none.
    pub open spec fn label(self) -> Option<Seq<char>> {
        match self {
            StoryType::Top => Some("Top"@),
            StoryType::New => Some("New"@),
            StoryType::Best => Some("Best"@),
            StoryType::Ask => Some("Ask"@),
            StoryType::Show => Some("Show"@),
            StoryType::Job => Some("Job"@),
            StoryType::Item => None,
        }
    }

    /// Whether this category is a feed, that is, a list of ids.
    pub open spec fn is_list(self) -> bool {
        self != StoryType::Item
    }

    /// The segment as a borrowed literal.
    pub fn segment_str(&self) -> (s: &'static str)
        ensures
            s@ == self.segment(),
    {
        match self {
            StoryType::Top => "topstories",
            StoryType::New => "newstories",
            StoryType::Best => "beststories",
            StoryType::Ask => "askstories",
            StoryType::Show => "showstories",
            StoryType::Job => "jobstories",
            StoryType::Item => "item",
        }
    }

    /// The path segment of this category as an owned string.
    pub fn to_string(&self) -> (s: String)
        ensures
            s@ == self.segment(),
    {
        String::from_str(self.segment_str())
    }

    /// The report name of a feed, `None` for `Item`.
    pub fn label_str(&self) -> (s: Option<&'static str>)
        ensures
            s.is_some() == self.label().is_some(),
            s matches Some(t) ==> Some(t@) == self.label(),
    {
        match self {
            StoryType::Top => Some("Top"),
            StoryType::New => Some("New"),
            StoryType::Best => Some("Best"),
            StoryType::Ask => Some("Ask"),
            StoryType::Show => Some("Show"),
            StoryType::Job => Some("Job"),
            StoryType::Item => None,
        }
    }
}

} // verus!
