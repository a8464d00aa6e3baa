//! The cache of what was last published on each topic, which keeps unchanged
//! payloads off the bus.

use vstd::prelude::*;

use dashmap::DashMap;

verus! {

/// dashmap's concurrent map; what it holds is named by `dash_entries`.
#[verifier::external_type_specification]
#[verifier::external_body]
#[verifier::reject_recursive_types(K)]
#[verifier::reject_recursive_types(V)]
#[verifier::reject_recursive_types(S)]
pub struct ExDashMap<K, V, S>(DashMap<K, V, S>);

/// A concurrent map from topics to payloads.
pub type TopicMap = DashMap<String, String>;

/// What a map from topics to payloads holds.
pub uninterp spec fn dash_entries(m: TopicMap) -> Map<Seq<char>, Seq<char>>;

/// Relies on `DashMap::new`: a map with no entries.
#[verifier::external_body]
fn new_dash_map() -> (r: TopicMap)
    ensures
        dash_entries(r).dom() == Set::<Seq<char>>::empty(),
{
    DashMap::new()
}

/// Relies on `DashMap::get`: the value stored under a key, if any.
#[verifier::external_body]
fn dash_get(m: &TopicMap, key: &str) -> (r: Option<String>)
    ensures
        match r {
            Some(v) => dash_entries(*m).contains_key(key@) && dash_entries(*m)[key@] == v@,
            None => !dash_entries(*m).contains_key(key@),
        },
{
    m.get(key).map(|entry| entry.value().clone())
}

/// Relies on `DashMap::insert`: the key maps to the value afterwards, all other
/// entries stay.
#[verifier::external_body]
fn dash_insert(m: &mut TopicMap, key: String, value: String)
    ensures
        dash_entries(*final(m)) == dash_entries(*old(m)).insert(key@, value@),
{
    m.insert(key, value);
}

/// Whether a payload must go to the bus: the topic has no payload yet, or another one.
pub open spec fn is_news(last: Map<Seq<char>, Seq<char>>, topic: Seq<char>, payload: Seq<char>) -> bool {
    !(last.contains_key(topic) && last[topic] == payload)
}

/// The last payload submitted on each topic.
///
/// An entry is written before the bus call that it stands for, whatever that call
/// then does. A payload whose publication failed is therefore kept off the bus
/// until a different payload comes for its topic; the bus keeps the messages it
/// received, so nothing is lost that it had taken.
pub struct PublishCache {
    last_published: TopicMap,
}

impl PublishCache {
    /// The topics and their last payloads.
    pub closed spec fn entries(&self) -> Map<Seq<char>, Seq<char>> {
        dash_entries(self.last_published)
    }

    /// A cache that has seen nothing.
    pub fn new() -> (r: PublishCache)
        ensures
            r.entries() == Map::<Seq<char>, Seq<char>>::empty(),
    {
        let last_published = new_dash_map();
        assert(dash_entries(last_published) =~= Map::<Seq<char>, Seq<char>>::empty());
        PublishCache { last_published }
    }

    /// The payload last submitted on a topic.
    pub fn last_payload(&self, topic: &str) -> (r: Option<String>)
        ensures
            match r {
                Some(v) => self.entries().contains_key(topic@) && self.entries()[topic@] == v@,
                None => !self.entries().contains_key(topic@),
            },
    {
        dash_get(&self.last_published, topic)
    }

    /// Records a payload for a topic and says whether it must be published: true
    /// when the topic had no payload yet or a different one. The topic maps to the
    /// payload afterwards either way.
    pub fn publish(&mut self, topic: &str, payload: &str) -> (r: bool)
        ensures
            r == is_news(old(self).entries(), topic@, payload@),
            final(self).entries() == old(self).entries().insert(topic@, payload@),
    {
        let candidate = String::from_str(payload);
        let news = match dash_get(&self.last_published, topic) {
            Some(last) => !(last == candidate),
            None => true,
        };
        if news {
            dash_insert(&mut self.last_published, String::from_str(topic), candidate);
        } else {
            proof {
                assert(old(self).entries().insert(topic@, payload@) =~= old(self).entries());
            }
        }
        news
    }
}

} // verus!

verus! {

/// Publishing a payload that is new on its topic, then the same payload again,
/// calls the bus once: the second time it is no news. A different payload after
/// the first is news again, so it calls the bus a second time.
pub proof fn lemma_repeated_payload_is_suppressed(
    last: Map<Seq<char>, Seq<char>>,
    topic: Seq<char>,
    p: Seq<char>,
    q: Seq<char>,
)
    requires
        is_news(last, topic, p),
    ensures
        !is_news(last.insert(topic, p), topic, p),
        p != q ==> is_news(last.insert(topic, p), topic, q),
{
}

} // verus!
