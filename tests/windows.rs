use research_shell::counter::WindowCounter;
use research_shell::label::{window_label, window_title};
use research_shell::window::{
    parse_url, plan_research_window, research_window, OpenError, WINDOW_HEIGHT, WINDOW_WIDTH,
};
use std::collections::HashSet;

#[test]
fn fresh_counter_is_at_zero() {
    let counter = WindowCounter::new();
    assert_eq!(counter.value(), 0);
}

#[test]
fn counter_hands_out_successive_numbers() {
    let mut counter = WindowCounter::new();
    assert_eq!(counter.next_sequence(), 0);
    assert_eq!(counter.next_sequence(), 1);
    assert_eq!(counter.next_sequence(), 2);
    assert_eq!(counter.value(), 3);
}

#[test]
fn labels_are_written_in_decimal() {
    assert_eq!(window_label(0), "research-0");
    assert_eq!(window_label(9), "research-9");
    assert_eq!(window_label(10), "research-10");
    assert_eq!(window_label(12345), "research-12345");
    assert_eq!(window_label(u64::MAX), "research-18446744073709551615");
}

#[test]
fn titles_carry_the_prefix() {
    assert_eq!(window_title("Paper A"), "Research: Paper A");
    assert_eq!(window_title(""), "Research: ");
}

#[test]
fn many_requests_get_distinct_labels() {
    let mut counter = WindowCounter::new();
    let mut labels = HashSet::new();
    for i in 0..1000u32 {
        let w = plan_research_window(&mut counter, "https://example.com/a", "t").unwrap();
        assert_eq!(w.label, format!("research-{}", i));
        labels.insert(w.label);
    }
    assert_eq!(labels.len(), 1000);
    assert_eq!(counter.value(), 1000);
}

#[test]
fn invalid_url_is_rejected() {
    let mut counter = WindowCounter::new();
    match plan_research_window(&mut counter, "not a url", "Paper A") {
        Err(OpenError::InvalidUrl(why)) => assert_eq!(why, "relative URL without a base"),
        _ => panic!("expected an invalid URL"),
    }
    assert_eq!(counter.value(), 1);
}

#[test]
fn invalid_url_message() {
    let mut counter = WindowCounter::new();
    let e = plan_research_window(&mut counter, "http://", "x").err().unwrap();
    assert_eq!(e.message(), "Invalid URL: empty host");
}

#[test]
fn valid_url_gives_one_window() {
    let mut counter = WindowCounter::new();
    let w = plan_research_window(&mut counter, "https://example.com", "Paper A").unwrap();
    assert_eq!(w.title, "Research: Paper A");
    assert_eq!(w.url, url::Url::parse("https://example.com").unwrap());
    assert_eq!(w.url.host_str(), Some("example.com"));
    assert_eq!(w.href, "https://example.com/");
    assert_eq!(w.label, "research-0");
    assert_eq!(w.width, 1200);
    assert_eq!(w.height, 800);
    assert!(w.resizable);
    assert_eq!(counter.value(), 1);
}

#[test]
fn url_is_normalised_by_the_parser() {
    let mut counter = WindowCounter::new();
    let w = plan_research_window(&mut counter, "HTTPS://Example.COM/x?q=1", "t").unwrap();
    assert_eq!(w.href, "https://example.com/x?q=1");
    assert_eq!(w.url.as_str(), w.href);
}

#[test]
fn window_from_a_parsed_url() {
    let u = url::Url::parse("https://example.org/paper").unwrap();
    let href = u.as_str().to_string();
    let w = research_window(7, Ok((u, href)), "B").unwrap();
    assert_eq!(w.label, "research-7");
    assert_eq!(w.title, "Research: B");
    assert_eq!(w.href, "https://example.org/paper");
    assert_eq!(w.width, WINDOW_WIDTH);
    assert_eq!(w.height, WINDOW_HEIGHT);
}

#[test]
fn window_from_a_parse_failure() {
    match research_window(7, Err("invalid port number".to_string()), "B") {
        Err(OpenError::InvalidUrl(why)) => assert_eq!(why, "invalid port number"),
        _ => panic!("expected an invalid URL"),
    }
}

#[test]
fn window_creation_failure_message() {
    let e = OpenError::WindowCreationFailed("out of handles".to_string());
    assert_eq!(e.message(), "Failed to create window: out of handles");
}

#[test]
fn parse_url_gives_the_url_and_its_serialization() {
    let (u, href) = parse_url("https://example.com").unwrap();
    assert_eq!(href, "https://example.com/");
    assert_eq!(u.as_str(), href);
    assert_eq!(parse_url("not a url").err().unwrap(), "relative URL without a base");
}

#[test]
fn window_loads_the_parsed_url() {
    let mut counter = WindowCounter::new();
    let w = plan_research_window(&mut counter, "https://example.com/p?id=3", "Paper A").unwrap();
    let (u, _) = parse_url("https://example.com/p?id=3").unwrap();
    assert_eq!(w.url, u);
    assert_eq!(w.title, "Research: Paper A");
}
