//! Turning one raw feed item into a post.
use vstd::prelude::*;
use crate::instant::{now_micros, parse_rfc3339, rfc3339_micros};

verus! {

/// One item of a feed page, with the fields that a post is made of.
pub struct FeedItem {
    /// The author's handle.
    pub author: String,
    /// The instant at which the service indexed the post, as RFC 3339 text.
    pub indexed_at: String,
    /// The post's text where its record has the shape of a post record, else `None`.
    pub text: Option<String>,
    pub like_count: Option<i64>,
    pub repost_count: Option<i64>,
}

/// A post of a feed.
pub struct FetchedPost {
    /// The author's handle.
    pub author: String,
    pub text: String,
    /// The instant at which the service indexed the post, in microseconds since
    /// the Unix epoch.
    pub created_at: i64,
    pub like_count: usize,
    pub repost_count: usize,
}

/// What a post holds, as plain values.
pub ghost struct PostView {
    pub author: Seq<char>,
    pub text: Seq<char>,
    pub created_at: int,
    pub like_count: nat,
    pub repost_count: nat,
}

impl View for FetchedPost {
    type V = PostView;

    open spec fn view(&self) -> PostView {
        PostView {
            author: self.author@,
            text: self.text@,
            created_at: self.created_at as int,
            like_count: self.like_count as nat,
            repost_count: self.repost_count as nat,
        }
    }
}

/// The view of an optional post.
pub open spec fn post_view_opt(p: Option<FetchedPost>) -> Option<PostView> {
    match p {
        Some(q) => Some(q@),
        None => None,
    }
}

/// The item's indexed instant, or `now` where its text is not a timestamp.
pub open spec fn instant_of(item: FeedItem, now: i64) -> i64 {
    match rfc3339_micros(item.indexed_at@) {
        Some(t) => t,
        None => now,
    }
}

/// A count as a post holds it: zero when absent or below zero, and at most
/// `usize::MAX`.
pub open spec fn count_of(c: Option<i64>) -> nat {
    match c {
        None => 0,
        Some(n) => if n < 0 {
            0
        } else if n > usize::MAX {
            usize::MAX as nat
        } else {
            n as nat
        },
    }
}

/// The post that an item gives, with `now` standing for an unreadable
/// timestamp; `None` where the item's record is not a post record.
pub open spec fn extracted(item: FeedItem, now: i64) -> Option<PostView> {
    match item.text {
        None => None,
        Some(t) => Some(
            PostView {
                author: item.author@,
                text: t@,
                created_at: instant_of(item, now) as int,
                like_count: count_of(item.like_count),
                repost_count: count_of(item.repost_count),
            },
        ),
    }
}

/// The item's indexed instant, or `now` where its text is not a timestamp.
pub fn item_instant(item: &FeedItem, now: i64) -> (r: i64)
    ensures
        r == instant_of(*item, now),
{
    match parse_rfc3339(item.indexed_at.as_str()) {
        Some(t) => t,
        None => now,
    }
}

fn count_value(c: Option<i64>) -> (r: usize)
    ensures
        r as nat == count_of(c),
{
    match c {
        None => 0,
        Some(n) => {
            if n < 0 {
                0
            } else if n as u64 > usize::MAX as u64 {
                usize::MAX
            } else {
                n as usize
            }
        },
    }
}

/// The post that `item` gives, with `now` standing for an unreadable timestamp.
pub fn extract_post_at(item: &FeedItem, now: i64) -> (r: Option<FetchedPost>)
    ensures
        post_view_opt(r) == extracted(*item, now),
{
    match &item.text {
        None => None,
        Some(t) => Some(
            FetchedPost {
                author: item.author.clone(),
                text: t.clone(),
                created_at: item_instant(item, now),
                like_count: count_value(item.like_count),
                repost_count: count_value(item.repost_count),
            },
        ),
    }
}

/// The post that `item` gives, with the current instant standing for an
/// unreadable timestamp (the Unix epoch where the clock reads before it);
/// `None` where the item's record is not a post record.
pub fn extract_post(item: &FeedItem) -> (r: Option<FetchedPost>)
    ensures
        r is None <==> item.text is None,
        match r {
            Some(p) => extracted(*item, p.created_at) == Some(p@) && (rfc3339_micros(
                item.indexed_at@,
            ) matches Some(t) ==> p.created_at == t),
            None => true,
        },
{
    if item.text.is_none() {
        return None;
    }
    let now = match parse_rfc3339(item.indexed_at.as_str()) {
        Some(t) => t,
        None => match now_micros() {
            Some(t) => t,
            None => 0,
        },
    };
    extract_post_at(item, now)
}

/// An item whose timestamp cannot be read still gives its post, with `now` as
/// its instant and the author, text and counts kept; a count the service
/// reports must be one a post can hold.
pub proof fn lemma_unreadable_timestamp_keeps_post(item: FeedItem, now: i64)
    requires
        rfc3339_micros(item.indexed_at@) is None,
        item.text is Some,
        item.like_count matches Some(n) ==> 0 <= n <= usize::MAX,
        item.repost_count matches Some(n) ==> 0 <= n <= usize::MAX,
    ensures
        extracted(item, now) == Some(
            PostView {
                author: item.author@,
                text: item.text->Some_0@,
                created_at: now as int,
                like_count: match item.like_count {
                    Some(n) => n as nat,
                    None => 0,
                },
                repost_count: match item.repost_count {
                    Some(n) => n as nat,
                    None => 0,
                },
            },
        ),
{
}

} // verus!
