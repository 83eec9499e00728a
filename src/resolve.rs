//! Turning what a user names a feed into the feed to fetch.
use vstd::prelude::*;
use crate::cache::FeedCache;
use crate::text::{has_prefix, lower_of, lowercase, same_text, starts_with};

verus! {

/// The name of the account's own timeline.
pub const TIMELINE_NAME: &'static str = "following";

/// The scheme that starts every feed URI.
pub const FEED_URI_SCHEME: &'static str = "at://";

/// The feed that an identifier names.
pub enum ResolvedFeed {
    /// The account's own timeline, which needs no URI.
    Timeline,
    /// A feed URI given as such.
    FullyQualified(String),
    /// The URI that the alias cache holds for the name.
    Cached(String),
    /// A name the cache does not hold, passed on as given; a warning is due.
    Unresolved(String),
}

/// What a resolved feed holds, as plain values.
pub ghost enum ResolvedView {
    Timeline,
    FullyQualified(Seq<char>),
    Cached(Seq<char>),
    Unresolved(Seq<char>),
}

impl View for ResolvedFeed {
    type V = ResolvedView;

    open spec fn view(&self) -> ResolvedView {
        match self {
            ResolvedFeed::Timeline => ResolvedView::Timeline,
            ResolvedFeed::FullyQualified(u) => ResolvedView::FullyQualified(u@),
            ResolvedFeed::Cached(u) => ResolvedView::Cached(u@),
            ResolvedFeed::Unresolved(u) => ResolvedView::Unresolved(u@),
        }
    }
}

/// The feed that `id` names, looking names up in `cache` by their lower-case form.
pub open spec fn resolution(id: Seq<char>, cache: Map<Seq<char>, Seq<char>>) -> ResolvedView {
    if id.len() == 0 || id == TIMELINE_NAME@ {
        ResolvedView::Timeline
    } else if starts_with(id, FEED_URI_SCHEME@) {
        ResolvedView::FullyQualified(id)
    } else if cache.contains_key(lower_of(id)) {
        ResolvedView::Cached(cache[lower_of(id)])
    } else {
        ResolvedView::Unresolved(id)
    }
}

impl ResolvedFeed {
    /// The feed URI to ask for: `None` for the timeline.
    pub fn feed_uri(&self) -> (r: Option<&String>)
        ensures
            match self {
                ResolvedFeed::Timeline => r is None,
                ResolvedFeed::FullyQualified(u) => r == Some(u),
                ResolvedFeed::Cached(u) => r == Some(u),
                ResolvedFeed::Unresolved(u) => r == Some(u),
            },
    {
        match self {
            ResolvedFeed::Timeline => None,
            ResolvedFeed::FullyQualified(u) => Some(u),
            ResolvedFeed::Cached(u) => Some(u),
            ResolvedFeed::Unresolved(u) => Some(u),
        }
    }

    /// Whether a warning is due: the name was not found in the cache.
    pub fn needs_warning(&self) -> (r: bool)
        ensures
            r == (self is Unresolved),
    {
        match self {
            ResolvedFeed::Unresolved(_) => true,
            _ => false,
        }
    }
}

/// The feed that `identifier` names: the timeline for an empty identifier or
/// the timeline's name, a feed URI as given, else the URI that `cache` holds
/// for its lower-case form, else the identifier itself with a warning due.
pub fn resolve_feed(identifier: &str, cache: &FeedCache) -> (r: ResolvedFeed)
    requires
        cache.wf(),
    ensures
        r@ == resolution(identifier@, cache@),
{
    if identifier.unicode_len() == 0 || same_text(identifier, TIMELINE_NAME) {
        return ResolvedFeed::Timeline;
    }
    if has_prefix(identifier, FEED_URI_SCHEME) {
        return ResolvedFeed::FullyQualified(identifier.to_owned());
    }
    let key = lowercase(identifier);
    match cache.get(key.as_str()) {
        Some(uri) => ResolvedFeed::Cached(uri.clone()),
        None => ResolvedFeed::Unresolved(identifier.to_owned()),
    }
}

} // verus!
