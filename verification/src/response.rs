//! The gathered feeds, and the listing of the first stories of a feed.

use vstd::prelude::*;
use crate::endpoint::{endpoint_suffix, is_resolution, resolve, resolved};
use crate::error::HackerNewsApiError;
use crate::story_type::StoryType;
use crate::text::{decimal, ends_with, push_decimal};

verus! {

/// One story as the item endpoint describes it.
#[derive(Debug)]
pub struct Story {
    pub by: String,
    pub descendants: Option<u32>,
    pub id: u32,
    pub kids: Option<Vec<u32>>,
    pub score: u32,
    pub title: String,
    pub story_type: String,
    pub url: Option<String>,
}

/// The ids of each feed, as far as the feed was fetched.
#[derive(Debug)]
pub struct HackerNewsResponse {
    top: Option<Vec<u64>>,
    new: Option<Vec<u64>>,
    best: Option<Vec<u64>>,
    ask: Option<Vec<u64>>,
    show: Option<Vec<u64>>,
    job: Option<Vec<u64>>,
}

/// What a [`HackerNewsResponse`] holds: for each feed its ids in the order in
/// which the service listed them, or nothing where the feed was not fetched.
pub ghost struct Feeds {
    pub top: Option<Seq<u64>>,
    pub new: Option<Seq<u64>>,
    pub best: Option<Seq<u64>>,
    pub ask: Option<Seq<u64>>,
    pub show: Option<Seq<u64>>,
    pub job: Option<Seq<u64>>,
}

/// The ids of an optional list.
pub open spec fn list_view(list: Option<Vec<u64>>) -> Option<Seq<u64>> {
    match list {
        Some(ids) => Some(ids@),
        None => None,
    }
}

impl Feeds {
    /// No feed fetched.
    pub open spec fn empty() -> Feeds {
        Feeds { top: None, new: None, best: None, ask: None, show: None, job: None }
    }

    /// The ids of one feed. An item lookup is no feed and has none.
    pub open spec fn ids(self, story_type: StoryType) -> Option<Seq<u64>> {
        match story_type {
            StoryType::Top => self.top,
            StoryType::New => self.new,
            StoryType::Best => self.best,
            StoryType::Ask => self.ask,
            StoryType::Show => self.show,
            StoryType::Job => self.job,
            StoryType::Item => None,
        }
    }

    /// These feeds with the ids of one feed replaced. An item lookup is no
    /// feed, so storing under it changes nothing.
    pub open spec fn with(self, story_type: StoryType, ids: Seq<u64>) -> Feeds {
        match story_type {
            StoryType::Top => Feeds { top: Some(ids), ..self },
            StoryType::New => Feeds { new: Some(ids), ..self },
            StoryType::Best => Feeds { best: Some(ids), ..self },
            StoryType::Ask => Feeds { ask: Some(ids), ..self },
            StoryType::Show => Feeds { show: Some(ids), ..self },
            StoryType::Job => Feeds { job: Some(ids), ..self },
            StoryType::Item => self,
        }
    }

    /// The ids whose stories a report of `amount` stories of one feed looks
    /// up: the first `amount` of the feed, all of them where it has fewer,
    /// none where it was not fetched.
    pub open spec fn first_ids(self, story_type: StoryType, amount: nat) -> Seq<u64> {
        match self.ids(story_type) {
            Some(ids) => if amount <= ids.len() {
                ids.take(amount as int)
            } else {
                ids
            },
            None => Seq::empty(),
        }
    }
}

impl View for HackerNewsResponse {
    type V = Feeds;

    closed spec fn view(&self) -> Feeds {
        Feeds {
            top: list_view(self.top),
            new: list_view(self.new),
            best: list_view(self.best),
            ask: list_view(self.ask),
            show: list_view(self.show),
            job: list_view(self.job),
        }
    }
}

impl Default for HackerNewsResponse {
    /// A response in which no feed was fetched.
    fn default() -> (out: Self)
        ensures
            out@ == Feeds::empty(),
    {
        HackerNewsResponse { top: None, new: None, best: None, ask: None, show: None, job: None }
    }
}

/// The line that announces the stories of a feed.
pub open spec fn heading_of(story_type: StoryType) -> Option<Seq<char>> {
    match story_type.label() {
        Some(label) => Some("Story Type: "@ + label),
        None => None,
    }
}

/// The line that reports one story: its place in the report, counted from
/// zero, its id and its title.
pub open spec fn story_line_of(index: nat, id: nat, title: Seq<char>) -> Seq<char> {
    "Story #"@ + decimal(index) + " - id: "@ + decimal(id) + " - "@ + title
}

/// What is to be printed and fetched for the report of one feed. A report
/// works through its listings step by step; see [`crate::report`].
#[derive(Debug)]
pub struct StoryListing {
    /// The line that announces the feed; an item lookup has none.
    pub heading: Option<String>,
    /// The ids of the stories to fetch and report, in this order.
    pub ids: Vec<u64>,
}

impl StoryListing {
    /// Whether this listing is the one for `amount` stories of `story_type`
    /// out of `feeds`.
    pub open spec fn lists(self, feeds: Feeds, story_type: StoryType, amount: nat) -> bool {
        &&& self.ids@ == feeds.first_ids(story_type, amount)
        &&& self.heading.is_some() == heading_of(story_type).is_some()
        &&& self.heading matches Some(line) ==> Some(line@) == heading_of(story_type)
    }
}

/// The feeds in the order in which a full report goes through them.
pub open spec fn report_order() -> Seq<StoryType> {
    seq![
        StoryType::Show,
        StoryType::Job,
        StoryType::Best,
        StoryType::Top,
        StoryType::New,
        StoryType::Ask,
    ]
}

impl HackerNewsResponse {
    /// The ids of one feed, where it was fetched.
    pub fn ids(&self, story_type: StoryType) -> (out: Option<&Vec<u64>>)
        ensures
            out.is_some() == self@.ids(story_type).is_some(),
            out matches Some(ids) ==> Some(ids@) == self@.ids(story_type),
    {
        match story_type {
            StoryType::Top => self.top.as_ref(),
            StoryType::New => self.new.as_ref(),
            StoryType::Best => self.best.as_ref(),
            StoryType::Ask => self.ask.as_ref(),
            StoryType::Show => self.show.as_ref(),
            StoryType::Job => self.job.as_ref(),
            StoryType::Item => None,
        }
    }

    /// This response with `ids` as the ids of one feed.
    pub fn store(self, story_type: StoryType, ids: Vec<u64>) -> (out: Self)
        ensures
            out@ == self@.with(story_type, ids@),
    {
        let mut out = self;
        match story_type {
            StoryType::Top => {
                out.top = Some(ids);
            },
            StoryType::New => {
                out.new = Some(ids);
            },
            StoryType::Best => {
                out.best = Some(ids);
            },
            StoryType::Ask => {
                out.ask = Some(ids);
            },
            StoryType::Show => {
                out.show = Some(ids);
            },
            StoryType::Job => {
                out.job = Some(ids);
            },
            StoryType::Item => {},
        }
        out
    }

    /// The address from which the story `id` is fetched: the one to which
    /// an item lookup with that id resolves.
    pub fn story_url(id: u64) -> (out: Result<String, HackerNewsApiError>)
        ensures
            is_resolution(out, resolved(StoryType::Item, Some(id))),
            out matches Ok(s) ==> ends_with(s@, endpoint_suffix(StoryType::Item, Some(id))),
    {
        resolve(StoryType::Item, Some(id))
    }

    /// The report of the first `amount` stories of one feed: the line that
    /// announces the feed, and the ids to look up one after the other. With
    /// an `amount` of zero, or a feed that was not fetched, no story is
    /// looked up.
    pub fn debub_print_story(&self, story_type: StoryType, amount: u8) -> (listing: StoryListing)
        ensures
            listing.lists(self@, story_type, amount as nat),
            listing.ids@.len() <= amount,
            amount == 0 ==> listing.ids@.len() == 0,
    {
        let amount = amount as usize;
        let heading = match story_type.label_str() {
            Some(label) => Some(String::from_str("Story Type: ").concat(label)),
            None => None,
        };
        let mut ids: Vec<u64> = Vec::new();
        match self.ids(story_type) {
            Some(list) => {
                let count = if amount <= list.len() {
                    amount
                } else {
                    list.len()
                };
                let mut i: usize = 0;
                while i < count
                    invariant
                        i <= count <= list@.len(),
                        ids@ == list@.take(i as int),
                    decreases count - i,
                {
                    ids.push(list[i]);
                    i = i + 1;
                    assert(ids@ =~= list@.take(i as int));
                }
                assert(list@.take(list@.len() as int) =~= list@);
            },
            None => {},
        }
        StoryListing { heading, ids }
    }

    /// The reports of the first `amount` stories of every feed, in
    /// [`report_order`].
    pub fn debug_print_stories(&self, amount: u8) -> (listings: Vec<StoryListing>)
        ensures
            listings@.len() == report_order().len(),
            forall|i: int|
                0 <= i < listings@.len() ==> (#[trigger] listings@[i]).lists(
                    self@,
                    report_order()[i],
                    amount as nat,
                ),
    {
        let mut listings: Vec<StoryListing> = Vec::new();
        listings.push(self.debub_print_story(StoryType::Show, amount));
        listings.push(self.debub_print_story(StoryType::Job, amount));
        listings.push(self.debub_print_story(StoryType::Best, amount));
        listings.push(self.debub_print_story(StoryType::Top, amount));
        listings.push(self.debub_print_story(StoryType::New, amount));
        listings.push(self.debub_print_story(StoryType::Ask, amount));
        listings
    }
}

/// The line that reports the story `id` at place `index` under `title`.
pub fn story_line(index: usize, id: u64, title: &str) -> (line: String)
    ensures
        line@ == story_line_of(index as nat, id as nat, title@),
{
    let mut line = String::from_str("Story #");
    push_decimal(&mut line, index as u64);
    line.append(" - id: ");
    push_decimal(&mut line, id);
    line.append(" - ");
    line.append(title);
    line
}

/// Storing the ids of a feed makes them the ids of that feed and leaves every
/// other feed as it was.
pub proof fn lemma_store_then_ids(feeds: Feeds, stored: StoryType, ids: Seq<u64>, asked: StoryType)
    ensures
        stored.is_list() ==> feeds.with(stored, ids).ids(stored) == Some(ids),
        asked != stored ==> feeds.with(stored, ids).ids(asked) == feeds.ids(asked),
        !stored.is_list() ==> feeds.with(stored, ids) == feeds,
{
}

/// A report of no stories looks up nothing, whatever the feed holds; and a
/// report never looks up more stories than were asked for, nor more than the
/// feed has.
pub proof fn lemma_first_ids_bounded(feeds: Feeds, story_type: StoryType, amount: nat)
    ensures
        feeds.first_ids(story_type, 0).len() == 0,
        feeds.first_ids(story_type, amount).len() <= amount,
        feeds.ids(story_type) matches Some(ids) ==> feeds.first_ids(story_type, amount).is_prefix_of(
            ids,
        ),
        feeds.ids(story_type).is_none() ==> feeds.first_ids(story_type, amount).len() == 0,
{
}

} // verus!
