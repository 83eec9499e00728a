//! The paged walk over a feed, bounded by a cutoff instant.
use vstd::prelude::*;
use crate::post::{extract_post_at, extracted, instant_of, item_instant, FeedItem, FetchedPost, PostView};

verus! {

/// How many items each page request asks for.
pub const PAGE_LIMIT: u8 = 100;

/// The posts that an optional post adds to a list.
pub open spec fn opt_posts(p: Option<PostView>) -> Seq<PostView> {
    match p {
        Some(v) => seq![v],
        None => Seq::empty(),
    }
}

/// The posts that a page's items give, in order, up to the first item indexed
/// before `cutoff`, and whether such an item was met.
pub open spec fn scan(items: Seq<FeedItem>, cutoff: i64, now: i64) -> (Seq<PostView>, bool)
    decreases items.len(),
{
    if items.len() == 0 {
        (Seq::empty(), false)
    } else {
        let (ps, hit) = scan(items.drop_last(), cutoff, now);
        if hit {
            (ps, true)
        } else if instant_of(items.last(), now) < cutoff {
            (ps, true)
        } else {
            (ps + opt_posts(extracted(items.last(), now)), false)
        }
    }
}

/// The views of a list of posts.
pub open spec fn posts_view(ps: Seq<FetchedPost>) -> Seq<PostView> {
    ps.map_values(|p: FetchedPost| p@)
}

/// No post that a page gives was indexed before the cutoff.
pub proof fn lemma_scan_within_window(items: Seq<FeedItem>, cutoff: i64, now: i64)
    ensures
        forall|i: int|
            0 <= i < scan(items, cutoff, now).0.len() ==> #[trigger] scan(items, cutoff, now).0[i].created_at
                >= cutoff,
    decreases items.len(),
{
    if items.len() > 0 {
        lemma_scan_within_window(items.drop_last(), cutoff, now);
        let ps = scan(items.drop_last(), cutoff, now).0;
        let r = scan(items, cutoff, now).0;
        assert forall|i: int| 0 <= i < r.len() implies #[trigger] r[i].created_at >= cutoff by {
            if i < ps.len() {
                assert(r[i] == ps[i]);
            }
        }
    }
}

/// Once an item before the cutoff is met, the items after it change nothing.
proof fn lemma_scan_stops(items: Seq<FeedItem>, k: int, cutoff: i64, now: i64)
    requires
        0 <= k <= items.len(),
        scan(items.take(k), cutoff, now).1,
    ensures
        scan(items, cutoff, now) == scan(items.take(k), cutoff, now),
    decreases items.len() - k,
{
    if k < items.len() {
        assert(items.take(k + 1).drop_last() =~= items.take(k));
        lemma_scan_stops(items, k + 1, cutoff, now);
    } else {
        assert(items.take(k) =~= items);
    }
}

/// What to do after a page.
pub enum FetchStep {
    /// Ask for the next page with this cursor.
    Next(String),
    /// The walk is over.
    Done,
}

/// The state of a walk over the pages of one feed.
pub struct Fetcher {
    cutoff: i64,
    now: i64,
    posts: Vec<FetchedPost>,
    done: bool,
}

impl Fetcher {
    /// The earliest instant that a post may carry.
    pub closed spec fn cutoff(&self) -> i64 {
        self.cutoff
    }

    /// The instant that stands for an unreadable timestamp.
    pub closed spec fn now(&self) -> i64 {
        self.now
    }

    /// The posts gathered so far.
    pub closed spec fn gathered(&self) -> Seq<PostView> {
        posts_view(self.posts@)
    }

    /// Whether the walk is over.
    pub closed spec fn is_done(&self) -> bool {
        self.done
    }

    /// No gathered post was indexed before the cutoff.
    pub closed spec fn wf(&self) -> bool {
        forall|i: int| 0 <= i < self.posts@.len() ==> #[trigger] self.posts@[i].created_at >= self.cutoff
    }

    /// A walk that has gathered nothing yet; `now` stands for any unreadable
    /// timestamp.
    pub fn new(cutoff: i64, now: i64) -> (r: Fetcher)
        ensures
            r.wf(),
            r.cutoff() == cutoff,
            r.now() == now,
            r.gathered() == Seq::<PostView>::empty(),
            !r.is_done(),
    {
        Fetcher { cutoff, now, posts: Vec::new(), done: false }
    }

    /// Whether the walk is over.
    pub fn finished(&self) -> (r: bool)
        ensures
            r == self.is_done(),
    {
        self.done
    }

    /// Takes in one page, its items in the order the service gave them, and
    /// the cursor it returned: gathers the posts of the items up to the first
    /// one indexed before the cutoff, and ends the walk at such an item or
    /// where there is no cursor.
    pub fn accept_page(&mut self, items: &Vec<FeedItem>, next_cursor: Option<String>) -> (r: FetchStep)
        requires
            old(self).wf(),
            !old(self).is_done(),
        ensures
            final(self).wf(),
            final(self).cutoff() == old(self).cutoff(),
            final(self).now() == old(self).now(),
            final(self).gathered() == old(self).gathered() + scan(items@, old(self).cutoff(), old(self).now()).0,
            final(self).is_done() == (scan(items@, old(self).cutoff(), old(self).now()).1 || next_cursor is None),
            match r {
                FetchStep::Next(c) => !final(self).is_done() && next_cursor == Some(c),
                FetchStep::Done => final(self).is_done(),
            },
    {
        let ghost start = self.posts@;
        let mut i: usize = 0;
        let mut hit = false;
        while i < items.len() && !hit
            invariant
                0 <= i <= items@.len(),
                self.cutoff == old(self).cutoff,
                self.now == old(self).now,
                !self.done,
                self.wf(),
                scan(items@.take(i as int), self.cutoff, self.now) == (
                    posts_view(self.posts@).subrange(start.len() as int, self.posts@.len() as int),
                    hit,
                ),
                posts_view(self.posts@).subrange(0, start.len() as int) == posts_view(start),
                start.len() <= self.posts@.len(),
            decreases items@.len() - i,
        {
            let ghost before = self.posts@;
            assert(items@.take(i + 1).drop_last() =~= items@.take(i as int));
            let item = &items[i];
            let t = item_instant(item, self.now);
            if t < self.cutoff {
                hit = true;
            } else {
                match extract_post_at(item, self.now) {
                    Some(p) => {
                        self.posts.push(p);
                    },
                    None => {},
                }
                assert(posts_view(self.posts@).subrange(start.len() as int, self.posts@.len() as int)
                    =~= posts_view(before).subrange(start.len() as int, before.len() as int)
                    + opt_posts(extracted(items@[i as int], self.now)));
                assert(posts_view(self.posts@).subrange(0, start.len() as int) =~= posts_view(
                    before,
                ).subrange(0, start.len() as int));
            }
            i += 1;
        }
        proof {
            if hit {
                lemma_scan_stops(items@, i as int, self.cutoff, self.now);
            } else {
                assert(items@.take(i as int) =~= items@);
            }
            assert(posts_view(self.posts@) =~= posts_view(self.posts@).subrange(0, start.len() as int)
                + posts_view(self.posts@).subrange(start.len() as int, self.posts@.len() as int));
        }
        if hit {
            self.done = true;
            return FetchStep::Done;
        }
        match next_cursor {
            Some(c) => FetchStep::Next(c),
            None => {
                self.done = true;
                FetchStep::Done
            },
        }
    }

    /// The posts gathered, none of them indexed before the cutoff.
    pub fn into_posts(self) -> (r: Vec<FetchedPost>)
        requires
            self.wf(),
        ensures
            posts_view(r@) == self.gathered(),
            forall|i: int| 0 <= i < r@.len() ==> #[trigger] r@[i].created_at >= self.cutoff(),
    {
        self.posts
    }
}

} // verus!
