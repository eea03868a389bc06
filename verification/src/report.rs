//! The report of the first stories of the feeds, one step at a time.
//!
//! A report goes through its listings in order. It prints the heading of a
//! listing, then fetches and prints the stories of that listing one after
//! the other. Each step names the lines to print and what to do then; the
//! caller fetches the story that a step asks for and hands the outcome to
//! [`report_next`]. A story that fails ends the report.

use vstd::prelude::*;
use crate::endpoint::{endpoint_suffix, resolved, texts};
use crate::error::HackerNewsApiError;
use crate::response::{story_line, story_line_of, HackerNewsResponse, Story, StoryListing};
use crate::story_type::StoryType;
use crate::text::ends_with;

verus! {

/// What the caller does once the lines of a step are printed.
#[derive(Debug)]
pub enum ReportAction {
    /// Fetch the story `id` from `url`, and hand the outcome to
    /// [`report_next`] with `feed` and `index`.
    Fetch { feed: usize, index: usize, id: u64, url: String },
    /// The report is complete.
    Done,
    /// The report has ended with this failure.
    Failed(HackerNewsApiError),
}

/// One step of a report: the lines to print, in this order, and what to do
/// then.
#[derive(Debug)]
pub struct ReportStep {
    pub lines: Vec<String>,
    pub action: ReportAction,
}

/// How far a report gets without a fetch: the lines that it prints, and the
/// story that it fetches next, as the place of its listing and its place in
/// that listing, or nothing where the report is complete.
pub ghost struct Advance {
    pub lines: Seq<Seq<char>>,
    pub next: Option<(int, int)>,
}

/// The heading of a listing as the lines that it takes.
pub open spec fn heading_lines(listing: StoryListing) -> Seq<Seq<char>> {
    match listing.heading {
        Some(line) => seq![line@],
        None => Seq::empty(),
    }
}

/// Whether the report holds a story at place `index` of the listing at place
/// `feed`.
pub open spec fn holds(listings: Seq<StoryListing>, feed: int, index: int) -> bool {
    0 <= feed < listings.len() && 0 <= index < listings[feed].ids@.len()
}

/// How far a report gets when it enters the listing at place `feed`: it
/// prints the heading of that listing and of every listing behind it, up to
/// the first one that has a story, which it fetches next.
pub open spec fn entering(listings: Seq<StoryListing>, feed: int) -> Advance
    decreases listings.len() - feed,
{
    if feed < 0 || feed >= listings.len() {
        Advance { lines: Seq::empty(), next: None }
    } else if listings[feed].ids@.len() > 0 {
        Advance { lines: heading_lines(listings[feed]), next: Some((feed, 0int)) }
    } else {
        let rest = entering(listings, feed + 1);
        Advance { lines: heading_lines(listings[feed]) + rest.lines, next: rest.next }
    }
}

/// How far a report gets once the story at place `index` of the listing at
/// place `feed` is printed: to the next story of that listing, or into the
/// listing behind it.
pub open spec fn leaving(listings: Seq<StoryListing>, feed: int, index: int) -> Advance {
    if index + 1 < listings[feed].ids@.len() {
        Advance { lines: Seq::empty(), next: Some((feed, index + 1)) }
    } else {
        entering(listings, feed + 1)
    }
}

impl ReportStep {
    /// Whether this step prints exactly `lines` and then goes on to `next`:
    /// it fetches that story from the address to which an item lookup with
    /// its id resolves, or, where no address could be formed, fails with the
    /// refusal that says so; with no story left it is done.
    pub open spec fn goes_on(
        self,
        listings: Seq<StoryListing>,
        lines: Seq<Seq<char>>,
        next: Option<(int, int)>,
    ) -> bool {
        &&& texts(self.lines@) =~= lines
        &&& match next {
            None => self.action is Done,
            Some((feed, index)) => {
                let awaited = listings[feed].ids@[index];
                match resolved(StoryType::Item, Some(awaited)) {
                    Ok(address) => {
                        &&& self.action matches ReportAction::Fetch { feed: f, index: i, id, url }
                        &&& f == feed
                        &&& i == index
                        &&& id == awaited
                        &&& url@ == address
                        &&& ends_with(url@, endpoint_suffix(StoryType::Item, Some(awaited)))
                    },
                    Err(reason) => {
                        &&& self.action matches ReportAction::Failed(
                            HackerNewsApiError::BadRequest(r),
                        )
                        &&& r@ == reason
                    },
                }
            },
        }
    }

    /// Whether this step ends the report with `failure` and prints nothing.
    pub open spec fn fails_with(self, failure: HackerNewsApiError) -> bool {
        self.lines@.len() == 0 && self.action == ReportAction::Failed(failure)
    }
}

/// The text carried by the refusal of an outcome for a story that the report
/// does not hold.
pub open spec fn no_such_story() -> Seq<char> {
    "The report holds no such story"@
}

/// The step that, after `lines`, fetches the story at place `index` of the
/// listing at place `feed`.
fn fetch_step(
    listings: &Vec<StoryListing>,
    feed: usize,
    index: usize,
    lines: Vec<String>,
) -> (step: ReportStep)
    requires
        holds(listings@, feed as int, index as int),
    ensures
        step.goes_on(listings@, texts(lines@), Some((feed as int, index as int))),
{
    let id = listings[feed].ids[index];
    let action = match HackerNewsResponse::story_url(id) {
        Ok(url) => ReportAction::Fetch { feed, index, id, url },
        Err(failure) => ReportAction::Failed(failure),
    };
    ReportStep { lines, action }
}

/// The step that, after `lines`, enters the listing at place `feed`.
fn enter(listings: &Vec<StoryListing>, feed: usize, lines: Vec<String>) -> (step: ReportStep)
    ensures
        step.goes_on(
            listings@,
            texts(lines@) + entering(listings@, feed as int).lines,
            entering(listings@, feed as int).next,
        ),
    decreases listings@.len() - feed,
{
    if feed >= listings.len() {
        return ReportStep { lines, action: ReportAction::Done };
    }
    let ghost before = texts(lines@);
    let mut lines = lines;
    match &listings[feed].heading {
        Some(line) => {
            lines.push(line.clone());
        },
        None => {},
    }
    assert(texts(lines@) =~= before + heading_lines(listings@[feed as int]));
    if listings[feed].ids.len() > 0 {
        fetch_step(listings, feed, 0, lines)
    } else {
        enter(listings, feed + 1, lines)
    }
}

/// Begins the report of `listings`: the first step prints the headings up to
/// the first listing that has a story, and fetches that story.
pub fn report_begin(listings: &Vec<StoryListing>) -> (step: ReportStep)
    ensures
        step.goes_on(listings@, entering(listings@, 0).lines, entering(listings@, 0).next),
{
    enter(listings, 0, Vec::new())
}

/// Continues the report of `listings` with the outcome of the fetch of the
/// story at place `index` of the listing at place `feed`.
///
/// A failure ends the report at once: the step prints nothing, fetches no
/// further story and is that failure. A story that came is printed in its
/// line; then the next story of the listing is fetched, or the listings
/// behind it are entered, or the report is done. An outcome for a story that
/// the report does not hold is refused.
pub fn report_next(
    listings: &Vec<StoryListing>,
    feed: usize,
    index: usize,
    fetched: Result<Story, HackerNewsApiError>,
) -> (step: ReportStep)
    ensures
        match fetched {
            Err(failure) => step.fails_with(failure),
            Ok(story) => if holds(listings@, feed as int, index as int) {
                step.goes_on(
                    listings@,
                    seq![
                        story_line_of(
                            index as nat,
                            listings@[feed as int].ids@[index as int] as nat,
                            story.title@,
                        ),
                    ] + leaving(listings@, feed as int, index as int).lines,
                    leaving(listings@, feed as int, index as int).next,
                )
            } else {
                &&& step.lines@.len() == 0
                &&& step.action matches ReportAction::Failed(HackerNewsApiError::BadRequest(r))
                &&& r@ == no_such_story()
            },
        },
        fetched.is_err() ==> !(step.action is Fetch) && !(step.action is Done),
{
    if fetched.is_ok() && (feed >= listings.len() || index >= listings[feed].ids.len()) {
        return ReportStep {
            lines: Vec::new(),
            action: ReportAction::Failed(
                HackerNewsApiError::BadRequest("The report holds no such story"),
            ),
        };
    }
    match fetched {
        Err(failure) => ReportStep { lines: Vec::new(), action: ReportAction::Failed(failure) },
        Ok(story) => {
            let line = story_line(index, listings[feed].ids[index], story.title.as_str());
            let mut lines: Vec<String> = Vec::new();
            lines.push(line);
            assert(texts(lines@) =~= seq![line@]);
            if index + 1 < listings[feed].ids.len() {
                fetch_step(listings, feed, index + 1, lines)
            } else {
                enter(listings, feed + 1, lines)
            }
        },
    }
}

/// A report goes forward only: the story that it fetches on entering a
/// listing is the first of that listing or of one behind it, it is a story
/// that the report holds, and no listing that was passed over has a story.
pub proof fn lemma_entering_goes_forward(listings: Seq<StoryListing>, feed: int)
    requires
        0 <= feed,
    ensures
        entering(listings, feed).next matches Some((f, i)) ==> feed <= f && i == 0 && holds(
            listings,
            f,
            i,
        ) && forall|k: int| feed <= k < f ==> (#[trigger] listings[k]).ids@.len() == 0,
        entering(listings, feed).next.is_none() ==> forall|k: int|
            feed <= k < listings.len() ==> (#[trigger] listings[k]).ids@.len() == 0,
    decreases listings.len() - feed,
{
    if feed < listings.len() && listings[feed].ids@.len() == 0 {
        lemma_entering_goes_forward(listings, feed + 1);
    }
}

/// After a story the report fetches the story behind it in the same
/// listing, or the first story of a later listing, or nothing.
pub proof fn lemma_leaving_goes_forward(listings: Seq<StoryListing>, feed: int, index: int)
    requires
        holds(listings, feed, index),
    ensures
        leaving(listings, feed, index).next matches Some((f, i)) ==> holds(listings, f, i) && ((f
            == feed && i == index + 1) || (f > feed && i == 0)),
{
    lemma_entering_goes_forward(listings, feed + 1);
}

} // verus!
