//! A small client-side model of the Hacker News feed API: which address to
//! ask for each feed, how the six feeds are gathered into one response, and
//! which stories of a feed are looked up and how each is reported.
//!
//! The library performs no network access itself. It decides what is to be
//! requested and what follows from each answer; the caller does the requests.

pub mod story_type;
pub mod error;
pub mod text;
pub mod endpoint;
pub mod response;
pub mod report;
pub mod api;

pub use crate::api::{CollectStep, HackerNewsAPI};
pub use crate::error::HackerNewsApiError;
pub use crate::report::{ReportAction, ReportStep};
pub use crate::response::{HackerNewsResponse, Story, StoryListing};
pub use crate::story_type::StoryType;
