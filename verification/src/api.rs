//! The client: which feed it addresses, and the run that gathers all six.
//!
//! A run is a sequence of steps. Each step either names an address to fetch,
//! or ends the run. The caller fetches the address and hands the outcome to
//! [`HackerNewsAPI::collect_next`], which decides the step that follows.

use vstd::prelude::*;
use crate::endpoint::{endpoint_suffix, is_resolution, resolve, resolved};
use crate::text::ends_with;
use crate::error::HackerNewsApiError;
use crate::response::{Feeds, HackerNewsResponse};
use crate::story_type::StoryType;

verus! {

/// The client of the service. It remembers the category that it addressed
/// last.
#[derive(Debug)]
pub struct HackerNewsAPI {
    endpoint: StoryType,
}

/// One step of the run that gathers the feeds.
#[derive(Debug)]
pub enum CollectStep {
    /// Fetch the ids behind `url`, and hand the outcome and `partial` to
    /// [`HackerNewsAPI::collect_next`].
    Request { url: String, partial: HackerNewsResponse },
    /// Every feed was fetched.
    Done(HackerNewsResponse),
    /// The run has ended without a response.
    Failed(HackerNewsApiError),
}

/// The feeds in the order in which a run fetches them.
pub open spec fn collect_order() -> Seq<StoryType> {
    seq![
        StoryType::Top,
        StoryType::New,
        StoryType::Ask,
        StoryType::Job,
        StoryType::Best,
        StoryType::Show,
    ]
}

/// The feed that a run fetches after `story_type`, if any.
pub open spec fn feed_after(story_type: StoryType) -> Option<StoryType> {
    match story_type {
        StoryType::Top => Some(StoryType::New),
        StoryType::New => Some(StoryType::Ask),
        StoryType::Ask => Some(StoryType::Job),
        StoryType::Job => Some(StoryType::Best),
        StoryType::Best => Some(StoryType::Show),
        StoryType::Show => None,
        StoryType::Item => None,
    }
}

/// The feeds that a run holds once the first `count` feeds of
/// [`collect_order`] have answered with `lists`.
pub open spec fn collected(lists: Seq<Seq<u64>>, count: nat) -> Feeds
    decreases count,
{
    if count == 0 {
        Feeds::empty()
    } else {
        collected(lists, (count - 1) as nat).with(
            collect_order()[count - 1],
            lists[count - 1],
        )
    }
}

impl CollectStep {
    /// Whether this step asks for the feed `story_type` with `partial`
    /// gathered so far; where the address of that feed cannot be formed, the
    /// step in its place is the failure that says so.
    pub open spec fn asks_for(self, story_type: StoryType, partial: Feeds) -> bool {
        match resolved(story_type, None) {
            Ok(address) => self matches CollectStep::Request { url, partial: held } && url@
                == address && held@ == partial,
            Err(reason) => self matches CollectStep::Failed(HackerNewsApiError::BadRequest(r))
                && r@ == reason,
        }
    }

    /// Whether this step follows from `outcome` for the feed `fetched`, with
    /// `partial` gathered before it: a failure ends the run with that
    /// failure; ids are stored, and then the next feed is asked for or, after
    /// the last, the run is done.
    pub open spec fn follows(
        self,
        fetched: StoryType,
        partial: Feeds,
        outcome: Result<Vec<u64>, HackerNewsApiError>,
    ) -> bool {
        match outcome {
            Err(failure) => self == CollectStep::Failed(failure),
            Ok(ids) => match feed_after(fetched) {
                Some(next) => self.asks_for(next, partial.with(fetched, ids@)),
                None => self matches CollectStep::Done(response) && response@ == partial.with(
                    fetched,
                    ids@,
                ),
            },
        }
    }
}

/// The step that asks for a feed at `address`, or, where no address could be
/// formed, the failure that says so.
pub fn request_step(
    address: Result<String, HackerNewsApiError>,
    partial: HackerNewsResponse,
) -> (step: CollectStep)
    ensures
        match address {
            Ok(url) => step == (CollectStep::Request { url, partial }),
            Err(failure) => step == CollectStep::Failed(failure),
        },
{
    match address {
        Ok(url) => CollectStep::Request { url, partial },
        Err(failure) => CollectStep::Failed(failure),
    }
}

impl HackerNewsAPI {
    /// The category that this client addresses.
    pub closed spec fn selected(&self) -> StoryType {
        self.endpoint
    }

    /// A client that addresses the top stories.
    pub fn new() -> (api: Self)
        ensures
            api.selected() == StoryType::Top,
    {
        HackerNewsAPI { endpoint: StoryType::Top }
    }

    /// The category that this client addresses.
    pub fn endpoint(&self) -> (story_type: StoryType)
        ensures
            story_type == self.selected(),
    {
        self.endpoint
    }

    /// The address of the category that this client addresses; see
    /// [`resolve`].
    pub fn prepare_url(&self, id: Option<u64>) -> (out: Result<String, HackerNewsApiError>)
        ensures
            is_resolution(out, resolved(self.selected(), id)),
            out matches Ok(s) ==> ends_with(s@, endpoint_suffix(self.selected(), id)),
    {
        resolve(self.endpoint, id)
    }

    /// The step that asks for `story_type`, which the client addresses from
    /// now on.
    fn request(&mut self, story_type: StoryType, partial: HackerNewsResponse) -> (step: CollectStep)
        ensures
            final(self).selected() == story_type,
            step.asks_for(story_type, partial@),
            step matches CollectStep::Request { url, .. } ==> ends_with(
                url@,
                endpoint_suffix(story_type, None),
            ),
    {
        self.endpoint = story_type;
        request_step(self.prepare_url(None), partial)
    }

    /// Begins a run: the first step asks for the first feed of
    /// [`collect_order`], with nothing gathered yet.
    pub fn collect_all_stories(&mut self) -> (step: CollectStep)
        ensures
            final(self).selected() == collect_order()[0],
            step.asks_for(collect_order()[0], Feeds::empty()),
            step matches CollectStep::Request { url, .. } ==> ends_with(
                url@,
                endpoint_suffix(collect_order()[0], None),
            ),
    {
        self.request(StoryType::Top, HackerNewsResponse::default())
    }

    /// Continues a run with the `outcome` of the request that the last step
    /// asked for, and `partial` as that step held it.
    ///
    /// A failure ends the run at once: the step is that failure, and nothing
    /// of what was gathered is handed out. Ids are stored under the feed that
    /// was asked for; then the next feed is asked for, or the run is done.
    /// The address of a request ends with a slash, the name of the feed that
    /// the client then addresses and `.json`.
    pub fn collect_next(
        &mut self,
        partial: HackerNewsResponse,
        outcome: Result<Vec<u64>, HackerNewsApiError>,
    ) -> (step: CollectStep)
        ensures
            step.follows(old(self).selected(), partial@, outcome),
            outcome.is_err() ==> !(step is Request) && !(step is Done),
            step matches CollectStep::Request { url, .. } ==> ends_with(
                url@,
                endpoint_suffix(final(self).selected(), None),
            ),
            final(self).selected() == match (outcome, feed_after(old(self).selected())) {
                (Ok(_), Some(next)) => next,
                _ => old(self).selected(),
            },
    {
        match outcome {
            Err(failure) => CollectStep::Failed(failure),
            Ok(ids) => {
                let fetched = self.endpoint;
                let stored = partial.store(fetched, ids);
                match fetched {
                    StoryType::Top => self.request(StoryType::New, stored),
                    StoryType::New => self.request(StoryType::Ask, stored),
                    StoryType::Ask => self.request(StoryType::Job, stored),
                    StoryType::Job => self.request(StoryType::Best, stored),
                    StoryType::Best => self.request(StoryType::Show, stored),
                    StoryType::Show => CollectStep::Done(stored),
                    StoryType::Item => CollectStep::Done(stored),
                }
            },
        }
    }
}

impl Default for HackerNewsAPI {
    fn default() -> (api: Self)
        ensures
            api.selected() == StoryType::Top,
    {
        HackerNewsAPI::new()
    }
}

/// A run goes through the feeds in [`collect_order`]: each feed but the last
/// is followed by the one behind it, the last by none, and the first is the
/// one that a client addresses when it is made.
pub proof fn lemma_feed_after_follows_order(i: int)
    requires
        0 <= i < collect_order().len(),
    ensures
        collect_order().len() == 6,
        collect_order()[i].is_list(),
        i + 1 < collect_order().len() ==> feed_after(collect_order()[i]) == Some(
            collect_order()[i + 1],
        ),
        i + 1 == collect_order().len() ==> feed_after(collect_order()[i]).is_none(),
{
}

/// A run in which every feed answers ends with a response that holds, for
/// every feed, exactly the ids with which that feed answered.
pub proof fn lemma_collected_holds_every_answer(lists: Seq<Seq<u64>>, i: int)
    requires
        lists.len() == collect_order().len(),
        0 <= i < collect_order().len(),
    ensures
        collected(lists, 6).ids(collect_order()[i]) == Some(lists[i]),
{
    reveal_with_fuel(collected, 7);
}

/// A run that has gathered the first `k` answers, and then receives the
/// answer of the feed at place `k`, holds the first `k + 1` answers: it asks
/// for the feed behind it with them, or, after the last feed, is done with
/// all six.
pub proof fn lemma_step_extends_collected(
    step: CollectStep,
    lists: Seq<Seq<u64>>,
    k: int,
    ids: Vec<u64>,
)
    requires
        lists.len() == collect_order().len(),
        0 <= k < collect_order().len(),
        ids@ == lists[k],
        step.follows(collect_order()[k], collected(lists, k as nat), Ok(ids)),
    ensures
        k + 1 < collect_order().len() ==> step.asks_for(
            collect_order()[k + 1],
            collected(lists, (k + 1) as nat),
        ),
        k + 1 == collect_order().len() ==> (step matches CollectStep::Done(response) && response@
            == collected(lists, 6)),
{
    lemma_feed_after_follows_order(k);
    assert(collected(lists, (k + 1) as nat) == collected(lists, k as nat).with(
        collect_order()[k],
        lists[k],
    ));
}

/// A run in which a feed fails hands out no response: whatever was gathered
/// before, the step that follows the failure is the failure itself.
pub proof fn lemma_failure_hands_out_nothing(
    step: CollectStep,
    fetched: StoryType,
    partial: Feeds,
    failure: HackerNewsApiError,
)
    requires
        step.follows(fetched, partial, Err(failure)),
    ensures
        step == CollectStep::Failed(failure),
        !(step is Done),
        !(step is Request),
{
}

} // verus!
