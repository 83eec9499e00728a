use feed_the_atmosphere::instant::cutoff_instant;
use feed_the_atmosphere::post::{extract_post, extract_post_at, item_instant, FeedItem, FetchedPost};
use feed_the_atmosphere::prompt::format_prompt;

fn item(author: &str, indexed_at: &str, text: Option<&str>, likes: Option<i64>, reposts: Option<i64>) -> FeedItem {
    FeedItem {
        author: author.to_string(),
        indexed_at: indexed_at.to_string(),
        text: text.map(|t| t.to_string()),
        like_count: likes,
        repost_count: reposts,
    }
}

#[test]
fn test_extract_post() {
    let view = item(
        "test.bsky.social",
        "2023-01-01T00:00:00Z",
        Some("This is a test post"),
        Some(10),
        Some(5),
    );
    let extracted = extract_post(&view).expect("Failed to extract post");
    assert_eq!(extracted.author, "test.bsky.social");
    assert_eq!(extracted.text, "This is a test post");
    assert_eq!(extracted.like_count, 10);
    assert_eq!(extracted.repost_count, 5);
    assert_eq!(extracted.created_at, 1_672_531_200_000_000);
}

#[test]
fn extract_without_text_gives_none() {
    let view = item("a.bsky.social", "2023-01-01T00:00:00Z", None, Some(1), Some(1));
    assert!(extract_post(&view).is_none());
    assert!(extract_post_at(&view, 7).is_none());
}

#[test]
fn extract_with_bad_timestamp_uses_now() {
    let view = item("a.bsky.social", "yesterday", Some("hi"), None, Some(3));
    let p = extract_post_at(&view, 42).expect("post");
    assert_eq!(p.created_at, 42);
    assert_eq!(p.author, "a.bsky.social");
    assert_eq!(p.text, "hi");
    assert_eq!(p.like_count, 0);
    assert_eq!(p.repost_count, 3);
    let q = extract_post(&view).expect("post");
    assert!(q.created_at > 1_672_531_200_000_000);
    assert_eq!(q.text, "hi");
}

#[test]
fn negative_counts_become_zero() {
    let view = item("a", "2023-01-01T00:00:00Z", Some("x"), Some(-4), Some(-1));
    let p = extract_post_at(&view, 0).expect("post");
    assert_eq!(p.like_count, 0);
    assert_eq!(p.repost_count, 0);
}

#[test]
fn timestamp_with_offset_and_fraction() {
    let view = item("a", "2023-01-01T01:00:00.250+01:00", Some("x"), None, None);
    assert_eq!(item_instant(&view, 0), 1_672_531_200_250_000);
}

#[test]
fn cutoff_is_minutes_before_now() {
    assert_eq!(cutoff_instant(1_714_564_800_000_000, 60), 1_714_561_200_000_000);
    assert_eq!(cutoff_instant(5, 0), 5);
    assert_eq!(cutoff_instant(i64::MIN + 10, 1), i64::MIN);
}

#[test]
fn test_format_prompt() {
    let posts = vec![
        FetchedPost {
            author: "alice.bsky.social".to_string(),
            text: "Hello world!".to_string(),
            created_at: 0,
            like_count: 5,
            repost_count: 2,
        },
        FetchedPost {
            author: "bob.bsky.social".to_string(),
            text: "Rust is cool".to_string(),
            created_at: 0,
            like_count: 50,
            repost_count: 10,
        },
    ];

    let prompt = format_prompt(&posts);
    assert!(prompt.contains("Summarize the following"));
    assert!(prompt.contains("Use reposts to help sort"));
    assert!(prompt.contains(
        "Post 1:\nAuthor: alice.bsky.social\nText: Hello world!\nLikes: 5\nReposts: 2"
    ));
    assert!(prompt.contains(
        "Post 2:\nAuthor: bob.bsky.social\nText: Rust is cool\nLikes: 50\nReposts: 10"
    ));
}

#[test]
fn prompt_of_no_posts_is_the_header() {
    let prompt = format_prompt(&[]);
    assert!(prompt.starts_with("Summarize the following"));
    assert!(prompt.ends_with("filtering mechanism.\n\n"));
    assert!(!prompt.contains("Post 1:"));
}

#[test]
fn prompt_writes_counts_in_decimal() {
    let posts = vec![FetchedPost {
        author: "carol".to_string(),
        text: "t".to_string(),
        created_at: 0,
        like_count: 1_234_567,
        repost_count: 0,
    }];
    let prompt = format_prompt(&posts);
    assert!(prompt.ends_with("Post 1:\nAuthor: carol\nText: t\nLikes: 1234567\nReposts: 0\n\n"));
}
