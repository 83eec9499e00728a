//! The alias cache: lower-case feed names mapped to feed URIs, and its JSON form.
use vstd::prelude::*;

verus! {

/// The name–URI pairs of a JSON object whose values are all strings, in the
/// order of their names; `None` where the text is no such object.
pub uninterp spec fn json_string_pairs(text: Seq<char>) -> Option<Seq<(Seq<char>, Seq<char>)>>;

/// The pretty-printed JSON object that holds the given name–URI pairs.
pub uninterp spec fn json_of_pairs(pairs: Seq<(Seq<char>, Seq<char>)>) -> Seq<char>;

/// The view of a sequence of string pairs.
pub open spec fn pairs_view(ps: Seq<(String, String)>) -> Seq<(Seq<char>, Seq<char>)> {
    ps.map_values(|p: (String, String)| (p.0@, p.1@))
}

/// The mapping that the pairs give when inserted in order: a later pair
/// replaces an earlier one of the same name.
pub open spec fn pairs_map(ps: Seq<(Seq<char>, Seq<char>)>) -> Map<Seq<char>, Seq<char>>
    decreases ps.len(),
{
    if ps.len() == 0 {
        Map::empty()
    } else {
        pairs_map(ps.drop_last()).insert(ps.last().0, ps.last().1)
    }
}

/// Relies on `serde_json::from_str` into a `BTreeMap<String, String>`: the
/// pairs depend on the text alone.
#[verifier::external_body]
fn decode_pairs(text: &str) -> (r: Option<Vec<(String, String)>>)
    ensures
        match r {
            None => json_string_pairs(text@) is None,
            Some(v) => json_string_pairs(text@) == Some(pairs_view(v@)),
        },
{
    serde_json::from_str::<std::collections::BTreeMap<String, String>>(text).ok().map(
        |m| m.into_iter().collect(),
    )
}

/// Relies on `serde_json::to_string_pretty` of a `BTreeMap<&str, &str>`: the
/// text depends on the pairs alone, and it fails only where a `Serialize` impl
/// fails or a map key is not a string, neither of which can happen here.
#[verifier::external_body]
fn encode_pairs(pairs: &Vec<(String, String)>) -> (r: Option<String>)
    ensures
        r is Some,
        r matches Some(t) ==> t@ == json_of_pairs(pairs_view(pairs@)),
{
    let m: std::collections::BTreeMap<&str, &str> = pairs.iter().map(
        |p| (p.0.as_str(), p.1.as_str()),
    ).collect();
    serde_json::to_string_pretty(&m).ok()
}

/// Whether `es` lists the mapping `m`: one pair for each name, no name twice.
pub open spec fn lists(m: Map<Seq<char>, Seq<char>>, es: Seq<(String, String)>) -> bool {
    &&& forall|i: int, j: int| 0 <= i < j < es.len() ==> es[i].0@ != es[j].0@
    &&& forall|i: int| 0 <= i < es.len() ==> m.contains_key(#[trigger] es[i].0@) && m[es[i].0@] == es[i].1@
    &&& forall|k: Seq<char>| #[trigger] m.contains_key(k) ==> exists|i: int| 0 <= i < es.len() && es[i].0@ == k
}

/// Whether the plain pairs `ps` list the mapping `m`: one pair for each name,
/// no name twice.
pub open spec fn pairs_list(m: Map<Seq<char>, Seq<char>>, ps: Seq<(Seq<char>, Seq<char>)>) -> bool {
    &&& forall|i: int, j: int| 0 <= i < j < ps.len() ==> ps[i].0 != ps[j].0
    &&& forall|i: int| 0 <= i < ps.len() ==> m.contains_key(#[trigger] ps[i].0) && m[ps[i].0] == ps[i].1
    &&& forall|k: Seq<char>| #[trigger] m.contains_key(k) ==> exists|i: int| 0 <= i < ps.len() && ps[i].0 == k
}

/// Inserting, in order, the pairs that list a mapping gives that mapping back.
pub proof fn lemma_listing_rebuilds(m: Map<Seq<char>, Seq<char>>, ps: Seq<(Seq<char>, Seq<char>)>)
    requires
        pairs_list(m, ps),
    ensures
        pairs_map(ps) == m,
    decreases ps.len(),
{
    if ps.len() == 0 {
        assert(m =~= Map::empty());
    } else {
        let k = ps.last().0;
        let rest = ps.drop_last();
        let sub = m.remove(k);
        assert forall|i: int| 0 <= i < rest.len() implies sub.contains_key(#[trigger] rest[i].0)
            && sub[rest[i].0] == rest[i].1 by {
            assert(rest[i] == ps[i]);
            assert(ps[i].0 != ps[ps.len() - 1].0);
        }
        assert forall|q: Seq<char>| #[trigger] sub.contains_key(q) implies exists|i: int|
            0 <= i < rest.len() && rest[i].0 == q by {
            let i = choose|i: int| 0 <= i < ps.len() && ps[i].0 == q;
            assert(i != ps.len() - 1);
            assert(rest[i] == ps[i]);
        }
        lemma_listing_rebuilds(sub, rest);
        assert(m.contains_key(ps[ps.len() - 1].0));
        assert(pairs_map(ps) =~= m);
    }
}

/// Loading a JSON text whose pairs list a mapping gives that mapping: what
/// `FeedCache::from_json` returns on such a text is exactly `m`.
pub proof fn lemma_load_of_listing(m: Map<Seq<char>, Seq<char>>, text: Seq<char>)
    requires
        json_string_pairs(text) matches Some(ps) && pairs_list(m, ps),
    ensures
        match json_string_pairs(text) {
            None => Map::empty(),
            Some(ps) => pairs_map(ps),
        } == m,
{
    lemma_listing_rebuilds(m, json_string_pairs(text)->Some_0);
}

/// Feed names, in lower case, mapped to feed URIs.
pub struct FeedCache {
    entries: Vec<(String, String)>,
    model: Ghost<Map<Seq<char>, Seq<char>>>,
}

impl View for FeedCache {
    type V = Map<Seq<char>, Seq<char>>;

    closed spec fn view(&self) -> Map<Seq<char>, Seq<char>> {
        self.model@
    }
}

impl FeedCache {
    /// The name–URI pairs in the order in which the cache holds them.
    pub closed spec fn pairs(&self) -> Seq<(String, String)> {
        self.entries@
    }

    /// The cache's well-formedness: its pairs list its mapping.
    pub closed spec fn wf(&self) -> bool {
        &&& lists(self.model@, self.entries@)
        &&& self.model@.dom().finite()
        &&& self.model@.dom().len() == self.entries@.len()
    }

    /// An empty cache.
    pub fn new() -> (r: FeedCache)
        ensures
            r.wf(),
            r@ == Map::<Seq<char>, Seq<char>>::empty(),
    {
        FeedCache { entries: Vec::new(), model: Ghost(Map::empty()) }
    }

    /// The number of names.
    pub fn len(&self) -> (r: usize)
        requires
            self.wf(),
        ensures
            r == self@.dom().len(),
    {
        self.entries.len()
    }

    /// Whether the cache holds no name.
    pub fn is_empty(&self) -> (r: bool)
        requires
            self.wf(),
        ensures
            r == (self@.dom().len() == 0),
    {
        self.entries.len() == 0
    }

    /// The name–URI pairs, each name once.
    pub fn entries(&self) -> (r: &Vec<(String, String)>)
        requires
            self.wf(),
        ensures
            lists(self@, r@),
            r@ == self.pairs(),
    {
        &self.entries
    }

    /// The cache's pairs, as plain values, list its mapping.
    pub proof fn lemma_pairs_list(&self)
        requires
            self.wf(),
        ensures
            pairs_list(self@, pairs_view(self.pairs())),
    {
        let es = self.entries@;
        let ps = pairs_view(es);
        assert forall|i: int, j: int| 0 <= i < j < ps.len() implies ps[i].0 != ps[j].0 by {
            assert(es[i].0@ != es[j].0@);
        }
        assert forall|i: int| 0 <= i < ps.len() implies self@.contains_key(#[trigger] ps[i].0)
            && self@[ps[i].0] == ps[i].1 by {
            assert(ps[i].0 == es[i].0@);
        }
        assert forall|k: Seq<char>| #[trigger] self@.contains_key(k) implies exists|i: int|
            0 <= i < ps.len() && ps[i].0 == k by {
            let i = choose|i: int| 0 <= i < es.len() && es[i].0@ == k;
            assert(ps[i].0 == k);
        }
    }

    fn position(&self, name: &str) -> (r: Option<usize>)
        requires
            self.wf(),
        ensures
            match r {
                Some(i) => i < self.entries@.len() && self.entries@[i as int].0@ == name@,
                None => !self@.contains_key(name@),
            },
    {
        let mut i: usize = 0;
        while i < self.entries.len()
            invariant
                self.wf(),
                0 <= i <= self.entries@.len(),
                forall|j: int| 0 <= j < i ==> self.entries@[j].0@ != name@,
            decreases self.entries@.len() - i,
        {
            if crate::text::same_text(self.entries[i].0.as_str(), name) {
                return Some(i);
            }
            i += 1;
        }
        None
    }

    /// The URI stored under `name`.
    pub fn get(&self, name: &str) -> (r: Option<&String>)
        requires
            self.wf(),
        ensures
            match r {
                Some(v) => self@.contains_key(name@) && v@ == self@[name@],
                None => !self@.contains_key(name@),
            },
    {
        match self.position(name) {
            Some(i) => Some(&self.entries[i].1),
            None => None,
        }
    }

    /// Stores `uri` under `name`, replacing what was stored there.
    pub fn insert(&mut self, name: String, uri: String)
        requires
            old(self).wf(),
        ensures
            final(self).wf(),
            final(self)@ == old(self)@.insert(name@, uri@),
    {
        let ghost old_model = self.model@;
        let ghost old_entries = self.entries@;
        let ghost key = name@;
        let ghost val = uri@;
        match self.position(name.as_str()) {
            Some(i) => {
                self.entries.set(i, (name, uri));
                self.model = Ghost(old_model.insert(key, val));
                assert(self.model@.dom() =~= old_model.dom());
                assert forall|k: Seq<char>| #[trigger] self.model@.contains_key(k) implies exists|
                    j: int,
                | 0 <= j < self.entries@.len() && self.entries@[j].0@ == k by {
                    if k == key {
                        assert(self.entries@[i as int].0@ == k);
                    } else {
                        let j = choose|j: int| 0 <= j < old_entries.len() && old_entries[j].0@ == k;
                        assert(self.entries@[j].0@ == k);
                    }
                }
            },
            None => {
                self.entries.push((name, uri));
                self.model = Ghost(old_model.insert(key, val));
                assert(self.model@.dom() =~= old_model.dom().insert(key));
                assert forall|k: Seq<char>| #[trigger] self.model@.contains_key(k) implies exists|
                    j: int,
                | 0 <= j < self.entries@.len() && self.entries@[j].0@ == k by {
                    if k == key {
                        assert(self.entries@[old_entries.len() as int].0@ == k);
                    } else {
                        let j = choose|j: int| 0 <= j < old_entries.len() && old_entries[j].0@ == k;
                        assert(self.entries@[j].0@ == k);
                    }
                }
            },
        }
    }

    /// The cache that the pairs give, a later pair replacing an earlier one of
    /// the same name.
    pub fn from_pairs(pairs: &Vec<(String, String)>) -> (r: FeedCache)
        ensures
            r.wf(),
            r@ == pairs_map(pairs_view(pairs@)),
    {
        let mut c = FeedCache::new();
        let mut i: usize = 0;
        while i < pairs.len()
            invariant
                0 <= i <= pairs@.len(),
                c.wf(),
                c@ == pairs_map(pairs_view(pairs@).take(i as int)),
            decreases pairs@.len() - i,
        {
            let ghost pv = pairs_view(pairs@);
            assert(pv.take(i + 1).drop_last() =~= pv.take(i as int));
            c.insert(pairs[i].0.clone(), pairs[i].1.clone());
            i += 1;
        }
        assert(pairs_view(pairs@).take(i as int) =~= pairs_view(pairs@));
        c
    }

    /// The cache that a JSON text holds: empty where the text is not an object
    /// of string values.
    pub fn from_json(text: &str) -> (r: FeedCache)
        ensures
            r.wf(),
            r@ == match json_string_pairs(text@) {
                None => Map::empty(),
                Some(ps) => pairs_map(ps),
            },
    {
        match decode_pairs(text) {
            None => FeedCache::new(),
            Some(v) => FeedCache::from_pairs(&v),
        }
    }

    /// The cache as a pretty-printed JSON object.
    pub fn to_json(&self) -> (r: String)
        requires
            self.wf(),
        ensures
            r@ == json_of_pairs(pairs_view(self.pairs())),
    {
        match encode_pairs(&self.entries) {
            Some(t) => t,
            None => String::new(),
        }
    }
}

} // verus!
