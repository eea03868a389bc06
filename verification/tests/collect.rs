use hackernewsapi::api::request_step;
use hackernewsapi::report::{report_begin, report_next};
use hackernewsapi::{
    CollectStep, HackerNewsAPI, HackerNewsApiError, HackerNewsResponse, ReportAction, Story,
    StoryType,
};

fn run(
    api: &mut HackerNewsAPI,
    mut answer: impl FnMut(&str) -> Result<Vec<u64>, HackerNewsApiError>,
) -> (Vec<String>, Result<HackerNewsResponse, HackerNewsApiError>) {
    let mut asked = Vec::new();
    let mut step = api.collect_all_stories();
    loop {
        match step {
            CollectStep::Request { url, partial } => {
                let outcome = answer(&url);
                asked.push(url);
                step = api.collect_next(partial, outcome);
            }
            CollectStep::Done(response) => return (asked, Ok(response)),
            CollectStep::Failed(failure) => return (asked, Err(failure)),
        }
    }
}

fn address(segment: &str) -> String {
    format!("https://hacker-news.firebaseio.com/v0/{}.json", segment)
}

#[test]
fn a_run_asks_for_the_feeds_in_order() {
    let mut api = HackerNewsAPI::new();
    let (asked, out) = run(&mut api, |_| Ok(vec![]));
    assert!(out.is_ok());
    assert_eq!(
        asked,
        vec![
            address("topstories"),
            address("newstories"),
            address("askstories"),
            address("jobstories"),
            address("beststories"),
            address("showstories"),
        ]
    );
    assert_eq!(api.endpoint(), StoryType::Show);
}

#[test]
fn a_run_stores_each_answer_under_its_feed() {
    let mut api = HackerNewsAPI::new();
    let (_, out) = run(&mut api, |url| {
        if url.ends_with("/topstories.json") {
            Ok(vec![1, 2])
        } else if url.ends_with("/newstories.json") {
            Ok(vec![3])
        } else if url.ends_with("/askstories.json") {
            Ok(vec![4, 5, 6])
        } else if url.ends_with("/jobstories.json") {
            Ok(vec![])
        } else if url.ends_with("/beststories.json") {
            Ok(vec![7])
        } else {
            Ok(vec![8, 9])
        }
    });
    let response = out.unwrap();
    assert_eq!(response.ids(StoryType::Top), Some(&vec![1, 2]));
    assert_eq!(response.ids(StoryType::New), Some(&vec![3]));
    assert_eq!(response.ids(StoryType::Ask), Some(&vec![4, 5, 6]));
    assert_eq!(response.ids(StoryType::Job), Some(&vec![]));
    assert_eq!(response.ids(StoryType::Best), Some(&vec![7]));
    assert_eq!(response.ids(StoryType::Show), Some(&vec![8, 9]));
}

#[test]
fn the_first_step_asks_for_top_with_nothing_gathered() {
    let mut api = HackerNewsAPI::new();
    match api.collect_all_stories() {
        CollectStep::Request { url, partial } => {
            assert_eq!(url, address("topstories"));
            assert!(partial.ids(StoryType::Top).is_none());
        }
        _ => panic!("the run should begin with a request"),
    }
    assert_eq!(api.endpoint(), StoryType::Top);
}

#[test]
fn a_failure_of_new_ends_the_run_without_a_response() {
    let mut api = HackerNewsAPI::new();
    let (asked, out) = run(&mut api, |url| {
        if url.ends_with("/newstories.json") {
            Err(HackerNewsApiError::RequestFailed("no route".to_string()))
        } else {
            Ok(vec![1, 2, 3])
        }
    });
    assert_eq!(asked, vec![address("topstories"), address("newstories")]);
    match out {
        Err(HackerNewsApiError::RequestFailed(detail)) => assert_eq!(detail, "no route"),
        _ => panic!("the run should fail as the fetch of the feed did"),
    }
    assert_eq!(api.endpoint(), StoryType::New);
}

#[test]
fn a_failure_of_the_first_feed_asks_for_no_other() {
    let mut api = HackerNewsAPI::new();
    let (asked, out) = run(&mut api, |_| {
        Err(HackerNewsApiError::DecodeFailed("not a list".to_string()))
    });
    assert_eq!(asked, vec![address("topstories")]);
    assert!(matches!(out, Err(HackerNewsApiError::DecodeFailed(_))));
}

#[test]
fn a_failure_of_the_last_feed_still_fails_the_run() {
    let mut api = HackerNewsAPI::new();
    let (asked, out) = run(&mut api, |url| {
        if url.ends_with("/showstories.json") {
            Err(HackerNewsApiError::RequestFailed("reset".to_string()))
        } else {
            Ok(vec![1])
        }
    });
    assert_eq!(asked.len(), 6);
    assert!(matches!(out, Err(HackerNewsApiError::RequestFailed(_))));
}

#[test]
fn a_client_can_run_twice() {
    let mut api = HackerNewsAPI::new();
    let (first, _) = run(&mut api, |_| Ok(vec![1]));
    let (second, out) = run(&mut api, |_| Ok(vec![2]));
    assert_eq!(first, second);
    assert_eq!(out.unwrap().ids(StoryType::Top), Some(&vec![2]));
}

#[test]
fn one_story_of_show_is_reported_in_one_line() {
    let mut api = HackerNewsAPI::new();
    let (_, out) = run(&mut api, |url| {
        if url.ends_with("/showstories.json") {
            Ok(vec![1, 2, 3])
        } else {
            Ok(vec![])
        }
    });
    let response = out.unwrap();
    let listing = response.debub_print_story(StoryType::Show, 1);
    assert_eq!(listing.heading.as_deref(), Some("Story Type: Show"));
    assert_eq!(listing.ids, vec![1]);
    let listings = vec![listing];
    let mut lines = Vec::new();
    let mut asked = Vec::new();
    let mut step = report_begin(&listings);
    loop {
        lines.extend(step.lines);
        step = match step.action {
            ReportAction::Fetch { feed, index, id, url } => {
                asked.push(url);
                let fetched = Story {
                    by: "u".to_string(),
                    descendants: None,
                    id: id as u32,
                    kids: None,
                    score: 5,
                    title: "T".to_string(),
                    story_type: "story".to_string(),
                    url: None,
                };
                report_next(&listings, feed, index, Ok(fetched))
            }
            ReportAction::Done => break,
            ReportAction::Failed(_) => panic!("the report should not fail"),
        };
    }
    assert_eq!(
        asked,
        vec!["https://hacker-news.firebaseio.com/v0/item/1.json".to_string()]
    );
    assert_eq!(lines.remove(0), "Story Type: Show");
    assert_eq!(lines.len(), 1);
    assert!(lines[0].contains("id: 1"));
    assert!(lines[0].contains("T"));
    assert_eq!(lines[0], "Story #0 - id: 1 - T");
}

#[test]
fn a_step_for_an_address_asks_for_it() {
    let partial = HackerNewsResponse::default().store(StoryType::Top, vec![1]);
    match request_step(Ok("https://example.org/a.json".to_string()), partial) {
        CollectStep::Request { url, partial } => {
            assert_eq!(url, "https://example.org/a.json");
            assert_eq!(partial.ids(StoryType::Top), Some(&vec![1]));
        }
        _ => panic!("an address should be asked for"),
    }
}

#[test]
fn a_step_without_an_address_fails() {
    let step = request_step(
        Err(HackerNewsApiError::BadRequest("no address")),
        HackerNewsResponse::default(),
    );
    assert!(matches!(
        step,
        CollectStep::Failed(HackerNewsApiError::BadRequest("no address"))
    ));
}
