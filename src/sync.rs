//! Turning the account's saved-feed preferences into the alias cache.
use vstd::prelude::*;
use crate::cache::FeedCache;
use crate::text::{lower_of, lowercase, same_text};

verus! {

/// The kind of saved entry that is a feed.
pub const FEED_KIND: &'static str = "feed";

/// How many feed URIs one generator lookup takes at most.
pub const LOOKUP_BATCH: usize = 25;

/// One entry of the current saved-feeds preference.
pub struct SavedFeed {
    /// The entry's type: a feed, a list, the timeline.
    pub kind: String,
    /// The entry's value: a URI for a feed.
    pub value: String,
}

/// One preference of the account, as far as saved feeds go.
pub enum FeedsPreference {
    /// The current form: typed entries.
    Saved(Vec<SavedFeed>),
    /// The older form: a flat list of feed URIs.
    Legacy(Vec<String>),
    /// Any other preference.
    Other,
}

/// A feed generator as the lookup describes it.
pub struct FeedGenerator {
    pub display_name: String,
    pub uri: String,
}

/// The feed URIs of the current form's entries, in order.
pub open spec fn saved_uris(items: Seq<SavedFeed>) -> Seq<Seq<char>>
    decreases items.len(),
{
    if items.len() == 0 {
        Seq::empty()
    } else if items.last().kind@ == FEED_KIND@ {
        saved_uris(items.drop_last()).push(items.last().value@)
    } else {
        saved_uris(items.drop_last())
    }
}

/// The feed URIs that one preference holds.
pub open spec fn pref_uris(p: FeedsPreference) -> Seq<Seq<char>> {
    match p {
        FeedsPreference::Saved(items) => saved_uris(items@),
        FeedsPreference::Legacy(uris) => uris@.map_values(|u: String| u@),
        FeedsPreference::Other => Seq::empty(),
    }
}

/// The feed URIs that the preferences hold, in order.
pub open spec fn prefs_uris(prefs: Seq<FeedsPreference>) -> Seq<Seq<char>>
    decreases prefs.len(),
{
    if prefs.len() == 0 {
        Seq::empty()
    } else {
        prefs_uris(prefs.drop_last()) + pref_uris(prefs.last())
    }
}

/// The alias mapping that generators give, processed in order: each display
/// name in lower case maps to the URI, a later one replacing an earlier one.
pub open spec fn aliases_of(gens: Seq<FeedGenerator>) -> Map<Seq<char>, Seq<char>>
    decreases gens.len(),
{
    if gens.len() == 0 {
        Map::empty()
    } else {
        aliases_of(gens.drop_last()).insert(lower_of(gens.last().display_name@), gens.last().uri@)
    }
}

/// The views of a list of strings.
pub open spec fn strings_view(v: Seq<String>) -> Seq<Seq<char>> {
    v.map_values(|u: String| u@)
}

fn push_saved(out: &mut Vec<String>, items: &Vec<SavedFeed>)
    ensures
        strings_view(final(out)@) == strings_view(old(out)@) + saved_uris(items@),
{
    let ghost start = strings_view(out@);
    let mut i: usize = 0;
    while i < items.len()
        invariant
            0 <= i <= items@.len(),
            strings_view(out@) == start + saved_uris(items@.take(i as int)),
        decreases items@.len() - i,
    {
        assert(items@.take(i + 1).drop_last() =~= items@.take(i as int));
        let ghost prev = out@;
        assert(items@.take(i + 1).last() == items@[i as int]);
        if same_text(items[i].kind.as_str(), FEED_KIND) {
            out.push(items[i].value.clone());
            assert(strings_view(out@) =~= strings_view(prev).push(items@[i as int].value@));
        }
        assert(strings_view(out@) =~= start + saved_uris(items@.take(i + 1)));
        i += 1;
    }
    assert(items@.take(i as int) =~= items@);
}

fn push_legacy(out: &mut Vec<String>, uris: &Vec<String>)
    ensures
        strings_view(final(out)@) == strings_view(old(out)@) + strings_view(uris@),
{
    let ghost start = strings_view(out@);
    let mut i: usize = 0;
    while i < uris.len()
        invariant
            0 <= i <= uris@.len(),
            strings_view(out@) == start + strings_view(uris@.take(i as int)),
        decreases uris@.len() - i,
    {
        let ghost prev = out@;
        out.push(uris[i].clone());
        assert(strings_view(out@) =~= strings_view(prev).push(uris@[i as int]@));
        assert(strings_view(uris@.take(i + 1)) =~= strings_view(uris@.take(i as int)).push(
            uris@[i as int]@,
        ));
        assert(strings_view(out@) =~= start + strings_view(uris@.take(i + 1)));
        i += 1;
    }
    assert(uris@.take(i as int) =~= uris@);
}

/// The feed URIs that the preferences hold, in order: the feed entries of the
/// current form and every URI of the older form.
pub fn collect_feed_uris(prefs: &Vec<FeedsPreference>) -> (r: Vec<String>)
    ensures
        strings_view(r@) == prefs_uris(prefs@),
{
    let mut out: Vec<String> = Vec::new();
    let mut i: usize = 0;
    while i < prefs.len()
        invariant
            0 <= i <= prefs@.len(),
            strings_view(out@) == prefs_uris(prefs@.take(i as int)),
        decreases prefs@.len() - i,
    {
        assert(prefs@.take(i + 1).drop_last() =~= prefs@.take(i as int));
        match &prefs[i] {
            FeedsPreference::Saved(items) => push_saved(&mut out, items),
            FeedsPreference::Legacy(uris) => push_legacy(&mut out, uris),
            FeedsPreference::Other => {
                assert(strings_view(out@) =~= prefs_uris(prefs@.take(i + 1)));
            },
        }
        i += 1;
    }
    assert(prefs@.take(i as int) =~= prefs@);
    out
}

/// The URIs in batches for the generator lookup: batch `k` holds the URIs
/// from `k * LOOKUP_BATCH` on, at most `LOOKUP_BATCH` of them, and every URI
/// stands in one batch.
pub fn lookup_batches(uris: &Vec<String>) -> (r: Vec<Vec<String>>)
    ensures
        r@.len() == (uris@.len() + LOOKUP_BATCH - 1) / LOOKUP_BATCH as int,
        forall|k: int|
            0 <= k < r@.len() ==> #[trigger] r@[k]@ == uris@.subrange(
                k * LOOKUP_BATCH,
                if (k + 1) * LOOKUP_BATCH < uris@.len() {
                    (k + 1) * LOOKUP_BATCH
                } else {
                    uris@.len() as int
                },
            ),
{
    let n = uris.len();
    let mut out: Vec<Vec<String>> = Vec::new();
    let mut start: usize = 0;
    while start < n
        invariant
            n == uris@.len(),
            start <= n,
            start < n ==> start == out@.len() * LOOKUP_BATCH,
            start == n ==> out@.len() == (n + LOOKUP_BATCH - 1) / LOOKUP_BATCH as int,
            start < n ==> out@.len() * LOOKUP_BATCH < n,
            forall|k: int|
                0 <= k < out@.len() ==> #[trigger] out@[k]@ == uris@.subrange(
                    k * LOOKUP_BATCH,
                    if (k + 1) * LOOKUP_BATCH < n {
                        (k + 1) * LOOKUP_BATCH
                    } else {
                        n as int
                    },
                ),
        decreases n - start,
    {
        let end: usize = if n - start > LOOKUP_BATCH {
            start + LOOKUP_BATCH
        } else {
            n
        };
        let mut batch: Vec<String> = Vec::new();
        let mut j: usize = start;
        while j < end
            invariant
                start <= j <= end,
                end <= n,
                n == uris@.len(),
                batch@ == uris@.subrange(start as int, j as int),
            decreases end - j,
        {
            batch.push(uris[j].clone());
            assert(batch@ =~= uris@.subrange(start as int, j + 1));
            j += 1;
        }
        out.push(batch);
        start = end;
    }
    if n == 0 {
        assert(out@.len() == 0);
    }
    out
}

/// The batches for the generator lookup of the preferences' feed URIs, or
/// `None` where the account saved no feed: then nothing is looked up and the
/// cache is left as it is. Batch `k` holds the URIs from `k * LOOKUP_BATCH` on,
/// at most `LOOKUP_BATCH` of them.
pub fn saved_feed_batches(prefs: &Vec<FeedsPreference>) -> (r: Option<Vec<Vec<String>>>)
    ensures
        r is None <==> prefs_uris(prefs@).len() == 0,
        r matches Some(b) ==> {
            let uris = prefs_uris(prefs@);
            &&& b@.len() == (uris.len() + LOOKUP_BATCH - 1) / LOOKUP_BATCH as int
            &&& forall|k: int|
                0 <= k < b@.len() ==> #[trigger] strings_view(b@[k]@) == uris.subrange(
                    k * LOOKUP_BATCH,
                    if (k + 1) * LOOKUP_BATCH < uris.len() {
                        (k + 1) * LOOKUP_BATCH
                    } else {
                        uris.len() as int
                    },
                )
        },
{
    let uris = collect_feed_uris(prefs);
    if uris.len() == 0 {
        return None;
    }
    let batches = lookup_batches(&uris);
    proof {
        let n = uris@.len() as int;
        assert forall|k: int| 0 <= k < batches@.len() implies #[trigger] strings_view(batches@[k]@)
            == prefs_uris(prefs@).subrange(
            k * LOOKUP_BATCH,
            if (k + 1) * LOOKUP_BATCH < n {
                (k + 1) * LOOKUP_BATCH
            } else {
                n
            },
        ) by {
            let hi = if (k + 1) * LOOKUP_BATCH < n {
                (k + 1) * LOOKUP_BATCH
            } else {
                n
            };
            assert(batches@[k]@ == uris@.subrange(k * LOOKUP_BATCH, hi));
            assert(strings_view(batches@[k]@) =~= strings_view(uris@).subrange(k * LOOKUP_BATCH, hi));
        }
    }
    Some(batches)
}

/// The alias cache that the generators give, processed in order: each display
/// name in lower case maps to its URI, a later generator replacing an earlier
/// one of the same name.
pub fn build_alias_map(gens: &Vec<FeedGenerator>) -> (r: FeedCache)
    ensures
        r.wf(),
        r@ == aliases_of(gens@),
{
    let mut c = FeedCache::new();
    let mut i: usize = 0;
    while i < gens.len()
        invariant
            0 <= i <= gens@.len(),
            c.wf(),
            c@ == aliases_of(gens@.take(i as int)),
        decreases gens@.len() - i,
    {
        assert(gens@.take(i + 1).drop_last() =~= gens@.take(i as int));
        let name = lowercase(gens[i].display_name.as_str());
        c.insert(name, gens[i].uri.clone());
        i += 1;
    }
    assert(gens@.take(i as int) =~= gens@);
    c
}

/// Where two generators share a display name up to case, the mapping holds
/// one entry for that name, with the URI of the one processed last.
pub proof fn lemma_last_name_wins(gens: Seq<FeedGenerator>, j: int)
    requires
        0 <= j < gens.len(),
        forall|i: int|
            j < i < gens.len() ==> lower_of(#[trigger] gens[i].display_name@) != lower_of(
                gens[j].display_name@,
            ),
    ensures
        aliases_of(gens).contains_key(lower_of(gens[j].display_name@)),
        aliases_of(gens)[lower_of(gens[j].display_name@)] == gens[j].uri@,
    decreases gens.len(),
{
    if j < gens.len() - 1 {
        let prefix = gens.drop_last();
        assert forall|i: int| j < i < prefix.len() implies lower_of(
            #[trigger] prefix[i].display_name@,
        ) != lower_of(prefix[j].display_name@) by {
            assert(prefix[i] == gens[i]);
        }
        lemma_last_name_wins(prefix, j);
        assert(gens[gens.len() - 1] == gens.last());
    }
}

} // verus!
