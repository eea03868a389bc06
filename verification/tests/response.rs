use hackernewsapi::endpoint::resolve;
use hackernewsapi::response::{story_line, HackerNewsResponse};
use hackernewsapi::story_type::StoryType;

#[test]
fn a_new_response_holds_no_feed() {
    let response = HackerNewsResponse::default();
    for category in [
        StoryType::Top,
        StoryType::New,
        StoryType::Best,
        StoryType::Ask,
        StoryType::Show,
        StoryType::Job,
        StoryType::Item,
    ] {
        assert!(response.ids(category).is_none());
    }
}

#[test]
fn storing_a_feed_leaves_the_others() {
    let response = HackerNewsResponse::default()
        .store(StoryType::Ask, vec![4, 5])
        .store(StoryType::Job, vec![6]);
    assert_eq!(response.ids(StoryType::Ask), Some(&vec![4, 5]));
    assert_eq!(response.ids(StoryType::Job), Some(&vec![6]));
    assert!(response.ids(StoryType::Top).is_none());
    assert!(response.ids(StoryType::New).is_none());
    assert!(response.ids(StoryType::Best).is_none());
    assert!(response.ids(StoryType::Show).is_none());
    let response = response.store(StoryType::Ask, vec![9]);
    assert_eq!(response.ids(StoryType::Ask), Some(&vec![9]));
    assert_eq!(response.ids(StoryType::Job), Some(&vec![6]));
}

#[test]
fn storing_under_item_changes_nothing() {
    let response = HackerNewsResponse::default()
        .store(StoryType::Top, vec![1])
        .store(StoryType::Item, vec![2, 3]);
    assert!(response.ids(StoryType::Item).is_none());
    assert_eq!(response.ids(StoryType::Top), Some(&vec![1]));
    assert!(response.ids(StoryType::New).is_none());
}

#[test]
fn the_first_two_of_three_are_looked_up_in_order() {
    let response = HackerNewsResponse::default().store(StoryType::Top, vec![8863, 8864, 8865]);
    let listing = response.debub_print_story(StoryType::Top, 2);
    assert_eq!(listing.ids, vec![8863, 8864]);
    assert!(!listing.ids.contains(&8865));
    assert_eq!(listing.heading.as_deref(), Some("Story Type: Top"));
}

#[test]
fn an_amount_of_zero_looks_up_nothing() {
    let mut response = HackerNewsResponse::default();
    let categories = [
        StoryType::Top,
        StoryType::New,
        StoryType::Best,
        StoryType::Ask,
        StoryType::Show,
        StoryType::Job,
    ];
    for category in categories {
        response = response.store(category, vec![1, 2, 3]);
    }
    for category in categories {
        assert!(response.debub_print_story(category, 0).ids.is_empty());
    }
    for listing in response.debug_print_stories(0) {
        assert!(listing.ids.is_empty());
    }
}

#[test]
fn an_amount_beyond_the_feed_looks_up_all_of_it() {
    let response = HackerNewsResponse::default().store(StoryType::Best, vec![3, 1, 2]);
    assert_eq!(response.debub_print_story(StoryType::Best, 3).ids, vec![3, 1, 2]);
    assert_eq!(response.debub_print_story(StoryType::Best, 4).ids, vec![3, 1, 2]);
    assert_eq!(response.debub_print_story(StoryType::Best, 255).ids, vec![3, 1, 2]);
}

#[test]
fn the_largest_amount_takes_255_ids() {
    let ids: Vec<u64> = (0..300).collect();
    let response = HackerNewsResponse::default().store(StoryType::New, ids.clone());
    let listing = response.debub_print_story(StoryType::New, 255);
    assert_eq!(listing.ids.len(), 255);
    assert_eq!(listing.ids, ids[..255].to_vec());
}

#[test]
fn a_feed_that_was_not_fetched_looks_up_nothing() {
    let response = HackerNewsResponse::default().store(StoryType::Top, vec![1, 2]);
    let listing = response.debub_print_story(StoryType::Job, 5);
    assert!(listing.ids.is_empty());
    assert_eq!(listing.heading.as_deref(), Some("Story Type: Job"));
}

#[test]
fn an_item_lookup_has_no_report() {
    let response = HackerNewsResponse::default().store(StoryType::Top, vec![1, 2]);
    let listing = response.debub_print_story(StoryType::Item, 5);
    assert!(listing.ids.is_empty());
    assert!(listing.heading.is_none());
}

#[test]
fn feed_headings() {
    let response = HackerNewsResponse::default();
    let expected = [
        (StoryType::Top, "Story Type: Top"),
        (StoryType::New, "Story Type: New"),
        (StoryType::Best, "Story Type: Best"),
        (StoryType::Ask, "Story Type: Ask"),
        (StoryType::Show, "Story Type: Show"),
        (StoryType::Job, "Story Type: Job"),
    ];
    for (category, heading) in expected {
        assert_eq!(
            response.debub_print_story(category, 1).heading.as_deref(),
            Some(heading)
        );
    }
}

#[test]
fn a_full_report_goes_show_job_best_top_new_ask() {
    let response = HackerNewsResponse::default()
        .store(StoryType::Top, vec![10, 11])
        .store(StoryType::New, vec![20, 21])
        .store(StoryType::Best, vec![30, 31])
        .store(StoryType::Ask, vec![40, 41])
        .store(StoryType::Show, vec![50, 51])
        .store(StoryType::Job, vec![60, 61]);
    let listings = response.debug_print_stories(1);
    let headings: Vec<&str> = listings
        .iter()
        .map(|listing| listing.heading.as_deref().unwrap())
        .collect();
    assert_eq!(
        headings,
        vec![
            "Story Type: Show",
            "Story Type: Job",
            "Story Type: Best",
            "Story Type: Top",
            "Story Type: New",
            "Story Type: Ask",
        ]
    );
    let ids: Vec<Vec<u64>> = listings.iter().map(|listing| listing.ids.clone()).collect();
    assert_eq!(
        ids,
        vec![vec![50], vec![60], vec![30], vec![10], vec![20], vec![40]]
    );
}

#[test]
fn story_address_is_the_resolved_item() {
    assert_eq!(
        HackerNewsResponse::story_url(8863).unwrap(),
        "https://hacker-news.firebaseio.com/v0/item/8863.json"
    );
    assert_eq!(
        HackerNewsResponse::story_url(0).unwrap(),
        "https://hacker-news.firebaseio.com/v0/item/0.json"
    );
    assert_eq!(
        HackerNewsResponse::story_url(8863).unwrap(),
        resolve(StoryType::Item, Some(8863)).unwrap()
    );
}

#[test]
fn story_line_is_exact() {
    assert_eq!(story_line(0, 1, "T"), "Story #0 - id: 1 - T");
    assert_eq!(
        story_line(12, 8863, "My YC app: Dropbox"),
        "Story #12 - id: 8863 - My YC app: Dropbox"
    );
    assert_eq!(story_line(3, 7, ""), "Story #3 - id: 7 - ");
}
