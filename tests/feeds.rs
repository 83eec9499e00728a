use feed_the_atmosphere::cache::FeedCache;
use feed_the_atmosphere::fetch::{FetchStep, Fetcher, PAGE_LIMIT};
use feed_the_atmosphere::instant::cutoff_instant;
use feed_the_atmosphere::post::FeedItem;
use feed_the_atmosphere::resolve::{resolve_feed, ResolvedFeed};

const NOW: i64 = 1_714_564_800_000_000;

fn at(minutes_ago: i64) -> FeedItem {
    let t = NOW - minutes_ago * 60_000_000;
    let secs = t / 1_000_000;
    let (h, m) = ((secs % 86_400) / 3600, (secs % 3600) / 60);
    FeedItem {
        author: format!("user{}.bsky.social", minutes_ago),
        indexed_at: format!("2024-05-01T{:02}:{:02}:00Z", h, m),
        text: Some(format!("post from {} minutes ago", minutes_ago)),
        like_count: Some(minutes_ago),
        repost_count: None,
    }
}

fn cache_of(pairs: &[(&str, &str)]) -> FeedCache {
    let mut c = FeedCache::new();
    for (k, v) in pairs {
        c.insert(k.to_string(), v.to_string());
    }
    c
}

#[test]
fn resolve_timeline() {
    let cache = cache_of(&[("following", "at://elsewhere")]);
    assert!(matches!(resolve_feed("following", &cache), ResolvedFeed::Timeline));
    assert!(matches!(resolve_feed("", &cache), ResolvedFeed::Timeline));
    assert!(resolve_feed("following", &cache).feed_uri().is_none());
}

#[test]
fn resolve_full_uri_ignores_cache() {
    let cache = cache_of(&[("at://custom", "at://other")]);
    match resolve_feed("at://custom", &cache) {
        ResolvedFeed::FullyQualified(u) => assert_eq!(u, "at://custom"),
        _ => panic!("expected a fully qualified feed"),
    }
}

#[test]
fn resolve_alias_case_insensitive() {
    let cache = cache_of(&[("myfeed", "at://x")]);
    let r = resolve_feed("MyFeed", &cache);
    assert!(!r.needs_warning());
    match r {
        ResolvedFeed::Cached(u) => assert_eq!(u, "at://x"),
        _ => panic!("expected a cached feed"),
    }
}

#[test]
fn resolve_unknown_warns() {
    let cache = FeedCache::new();
    let r = resolve_feed("Unknown", &cache);
    assert!(r.needs_warning());
    assert_eq!(r.feed_uri().map(|u| u.as_str()), Some("Unknown"));
}

#[test]
fn cache_insert_replaces() {
    let mut c = FeedCache::new();
    assert!(c.is_empty());
    c.insert("a".to_string(), "at://1".to_string());
    c.insert("b".to_string(), "at://2".to_string());
    c.insert("a".to_string(), "at://3".to_string());
    assert_eq!(c.len(), 2);
    assert_eq!(c.get("a").map(|s| s.as_str()), Some("at://3"));
    assert_eq!(c.get("b").map(|s| s.as_str()), Some("at://2"));
    assert!(c.get("c").is_none());
}

#[test]
fn cache_json_round_trip() {
    let c = cache_of(&[("what's hot", "at://hot"), ("science", "at://sci"), ("x\"y", "at://q")]);
    let text = c.to_json();
    assert!(text.contains("\"science\": \"at://sci\""));
    let back = FeedCache::from_json(&text);
    assert_eq!(back.len(), 3);
    for (k, v) in c.entries() {
        assert_eq!(back.get(k), Some(v));
    }
}

#[test]
fn cache_from_bad_json_is_empty() {
    assert!(FeedCache::from_json("not json").is_empty());
    assert!(FeedCache::from_json("{\"a\": 1}").is_empty());
    assert!(FeedCache::from_json("").is_empty());
    let c = FeedCache::from_json("{\"news\": \"at://n\"}");
    assert_eq!(c.len(), 1);
    assert_eq!(c.get("news").map(|s| s.as_str()), Some("at://n"));
}

#[test]
fn fetch_stops_inside_second_page() {
    assert_eq!(PAGE_LIMIT, 100);
    let cutoff = cutoff_instant(NOW, 60);
    let mut f = Fetcher::new(cutoff, NOW);
    let page1: Vec<FeedItem> = (1..=5).map(at).collect();
    let page2 = vec![at(10), at(20), at(90), at(30), at(40)];
    match f.accept_page(&page1, Some("c1".to_string())) {
        FetchStep::Next(c) => assert_eq!(c, "c1"),
        FetchStep::Done => panic!("page 1 should not end the walk"),
    }
    assert!(matches!(f.accept_page(&page2, Some("c2".to_string())), FetchStep::Done));
    assert!(f.finished());
    let posts = f.into_posts();
    assert_eq!(posts.len(), 7);
    let likes: Vec<usize> = posts.iter().map(|p| p.like_count).collect();
    assert_eq!(likes, vec![1, 2, 3, 4, 5, 10, 20]);
}

#[test]
fn fetch_ends_without_cursor() {
    let cutoff = cutoff_instant(NOW, 60);
    let mut f = Fetcher::new(cutoff, NOW);
    let mut page = vec![at(1), at(2)];
    page[1].text = None;
    assert!(matches!(f.accept_page(&page, None), FetchStep::Done));
    let posts = f.into_posts();
    assert_eq!(posts.len(), 1);
    assert_eq!(posts[0].author, "user1.bsky.social");
}

#[test]
fn fetched_posts_are_never_before_cutoff() {
    let cutoff = cutoff_instant(NOW, 30);
    let mut f = Fetcher::new(cutoff, NOW);
    let page = vec![at(0), at(29), at(30), at(31), at(5)];
    assert!(matches!(f.accept_page(&page, Some("more".to_string())), FetchStep::Done));
    let posts = f.into_posts();
    assert_eq!(posts.len(), 3);
    assert!(posts.iter().all(|p| p.created_at >= cutoff));
}

#[test]
fn fetch_unreadable_timestamp_counts_as_now() {
    let cutoff = cutoff_instant(NOW, 60);
    let mut f = Fetcher::new(cutoff, NOW);
    let mut odd = at(1);
    odd.indexed_at = "garbage".to_string();
    assert!(matches!(f.accept_page(&vec![odd], None), FetchStep::Done));
    let posts = f.into_posts();
    assert_eq!(posts.len(), 1);
    assert_eq!(posts[0].created_at, NOW);
}
