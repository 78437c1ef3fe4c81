//! The registry of active topics: the authoritative map from topic id to [`TopicMetadata`].
//!
//! Every mutation goes through one of the operations below, and each keeps the registry
//! well formed: one entry per topic id, and the executable entries agree with the map that
//! the contracts speak of.
use vstd::prelude::*;

verus! {

/// The contents of an optional string.
pub open spec fn optional_view(o: Option<String>) -> Option<Seq<char>> {
    match o {
        Some(s) => Some(s@),
        None => None,
    }
}

/// Copies an optional string.
pub fn clone_optional(o: &Option<String>) -> (r: Option<String>)
    ensures
        r == *o,
{
    match o {
        Some(s) => Some(s.clone()),
        None => None,
    }
}

/// What the contracts know of a topic.
pub struct TopicView {
    /// Id of the publisher that owns the topic; empty for a placeholder.
    pub owner: Seq<char>,
    /// Number of subscribers on the topic.
    pub count: nat,
    /// Whether the topic is marked for deletion.
    pub deleted: bool,
    /// Time, in seconds of a monotonic clock, of the last action on the topic.
    pub last_action: int,
    /// Address at which the owning publisher takes lifecycle notifications.
    pub callback: Option<Seq<char>>,
}

/// Metadata relevant to a dynamic topic.
#[derive(Debug)]
pub struct TopicMetadata {
    /// Client id provided by the publisher that will be used to publish from.
    pub client_id: String,
    /// The number of subscribers on a topic.
    pub count: u64,
    /// Whether the topic is marked for deletion.
    pub deleted: bool,
    /// Time, in seconds of a monotonic clock, of the last action on the topic.
    pub last_action: u64,
    /// Callback uri information for the publisher.
    pub management_callback: Option<String>,
}

impl TopicMetadata {
    /// The topic as the contracts see it.
    pub open spec fn view(&self) -> TopicView {
        TopicView {
            owner: self.client_id@,
            count: self.count as nat,
            deleted: self.deleted,
            last_action: self.last_action as int,
            callback: optional_view(self.management_callback),
        }
    }

    /// Creates the metadata of a topic that is not marked for deletion, last touched at `now`.
    ///
    /// # Arguments
    ///
    /// * `client_id` - The publisher's id.
    /// * `count` - The initial number of subscriptions on the topic.
    /// * `management_cb` - Callback uri for the publisher that created the topic.
    /// * `now` - The current time, in seconds of a monotonic clock.
    pub fn new(client_id: String, count: u64, management_cb: Option<String>, now: u64) -> (r: Self)
        ensures
            r.view() == (TopicView {
                owner: client_id@,
                count: count as nat,
                deleted: false,
                last_action: now as int,
                callback: optional_view(management_cb),
            }),
    {
        TopicMetadata {
            client_id,
            count,
            deleted: false,
            last_action: now,
            management_callback: management_cb,
        }
    }

    /// Returns the management callback parameter.
    pub fn get_management_callback(&self) -> (r: Option<String>)
        ensures
            r == self.management_callback,
    {
        clone_optional(&self.management_callback)
    }

    /// Returns the time of the last action on the topic.
    pub fn get_timeout(&self) -> (r: u64)
        ensures
            r == self.last_action,
    {
        self.last_action
    }

    /// Returns if the topic is marked for deletion.
    pub fn is_deleted(&self) -> (r: bool)
        ensures
            r == self.deleted,
    {
        self.deleted
    }

    /// Sets the time of the last action to `now`.
    pub fn reset_timeout(&mut self, now: u64)
        ensures
            final(self).view() == (TopicView { last_action: now as int, ..old(self).view() }),
    {
        self.last_action = now;
    }

    /// Marks the topic for deletion.
    pub fn delete(&mut self)
        ensures
            final(self).view() == (TopicView { deleted: true, ..old(self).view() }),
    {
        self.deleted = true;
    }

    /// Returns a copy of the metadata.
    pub fn snapshot(&self) -> (r: Self)
        ensures
            r == *self,
    {
        TopicMetadata {
            client_id: self.client_id.clone(),
            count: self.count,
            deleted: self.deleted,
            last_action: self.last_action,
            management_callback: clone_optional(&self.management_callback),
        }
    }
}

/// `s` lists the topics of `m`: each id once, each with its metadata.
pub open spec fn lists_topics(
    s: Seq<(String, TopicMetadata)>,
    m: Map<Seq<char>, TopicView>,
) -> bool {
    &&& forall|i: int|
        0 <= i < s.len() ==> #[trigger] m.contains_key(s[i].0@) && m[s[i].0@] == s[i].1.view()
    &&& forall|k: Seq<char>|
        #[trigger] m.contains_key(k) ==> exists|i: int| 0 <= i < s.len() && s[i].0@ == k
    &&& forall|i: int, j: int| 0 <= i < j < s.len() ==> s[i].0@ != s[j].0@
}

/// The active topics, keyed by topic id.
pub struct ActiveTopicsMap {
    entries: Vec<(String, TopicMetadata)>,
    topics: Ghost<Map<Seq<char>, TopicView>>,
}

impl View for ActiveTopicsMap {
    type V = Map<Seq<char>, TopicView>;

    closed spec fn view(&self) -> Map<Seq<char>, TopicView> {
        self.topics@
    }
}

impl ActiveTopicsMap {
    /// The entries agree with the map, one per topic id.
    pub closed spec fn wf(&self) -> bool {
        &&& lists_topics(self.entries@, self.topics@)
        &&& self.topics@.dom().finite()
        &&& self.topics@.dom().len() == self.entries@.len()
    }

    /// Creates an empty registry.
    pub fn new() -> (r: Self)
        ensures
            r.wf(),
            r@ == Map::<Seq<char>, TopicView>::empty(),
    {
        ActiveTopicsMap { entries: Vec::new(), topics: Ghost(Map::empty()) }
    }

    /// Returns the number of topics.
    pub fn len(&self) -> (r: usize)
        requires
            self.wf(),
        ensures
            r == self@.dom().len(),
    {
        self.entries.len()
    }

    fn find(&self, id: &String) -> (r: Option<usize>)
        requires
            self.wf(),
        ensures
            match r {
                Some(i) => i < self.entries@.len() && self.entries@[i as int].0@ == id@
                    && self@.contains_key(id@),
                None => !self@.contains_key(id@),
            },
    {
        let mut i: usize = 0;
        while i < self.entries.len()
            invariant
                self.wf(),
                i <= self.entries@.len(),
                forall|j: int| 0 <= j < i ==> self.entries@[j].0@ != id@,
            decreases self.entries@.len() - i,
        {
            if self.entries[i].0 == *id {
                assert(self@.contains_key(self.entries@[i as int].0@));
                return Some(i);
            }
            i += 1;
        }
        None
    }

    /// Returns whether a topic with this id is present.
    pub fn contains_key(&self, id: &String) -> (r: bool)
        requires
            self.wf(),
        ensures
            r == self@.contains_key(id@),
    {
        self.find(id).is_some()
    }

    /// Returns the metadata of the topic with this id, if it is present.
    pub fn get(&self, id: &String) -> (r: Option<&TopicMetadata>)
        requires
            self.wf(),
        ensures
            r.is_some() == self@.contains_key(id@),
            r.is_some() ==> r.unwrap().view() == self@[id@],
    {
        match self.find(id) {
            Some(i) => {
                assert(self@.contains_key(self.entries@[i as int].0@));
                Some(&self.entries[i].1)
            },
            None => None,
        }
    }

    /// Adds a topic under a fresh id. Fails, and changes nothing, if the id is taken.
    pub fn insert(&mut self, id: String, metadata: TopicMetadata) -> (r: bool)
        requires
            old(self).wf(),
        ensures
            final(self).wf(),
            r == !old(self)@.contains_key(id@),
            r ==> final(self)@ == old(self)@.insert(id@, metadata.view()),
            !r ==> final(self)@ == old(self)@,
    {
        if self.find(&id).is_some() {
            return false;
        }
        let ghost k = id@;
        let ghost v = metadata.view();
        let ghost old_entries = self.entries@;
        let ghost old_topics = self.topics@;
        self.entries.push((id, metadata));
        self.topics = Ghost(self.topics@.insert(k, v));
        proof {
            let s = self.entries@;
            let m = self.topics@;
            assert forall|i: int| 0 <= i < s.len() implies #[trigger] m.contains_key(s[i].0@)
                && m[s[i].0@] == s[i].1.view() by {
                if i < old_entries.len() {
                    assert(old_topics.contains_key(old_entries[i].0@));
                }
            }
            assert forall|key: Seq<char>| #[trigger] m.contains_key(key) implies exists|i: int|
                0 <= i < s.len() && s[i].0@ == key by {
                if key == k {
                    assert(s[s.len() - 1].0@ == key);
                } else {
                    assert(old_topics.contains_key(key));
                    let i = choose|i: int| 0 <= i < old_entries.len() && old_entries[i].0@ == key;
                    assert(s[i].0@ == key);
                }
            }
            assert forall|i: int, j: int| 0 <= i < j < s.len() implies s[i].0@ != s[j].0@ by {
                if j == s.len() - 1 {
                    assert(old_topics.contains_key(old_entries[i].0@));
                }
            }
        }
        true
    }

    /// Removes the topic with this id and returns its metadata, if it was present.
    pub fn remove(&mut self, id: &String) -> (r: Option<TopicMetadata>)
        requires
            old(self).wf(),
        ensures
            final(self).wf(),
            r.is_some() == old(self)@.contains_key(id@),
            r.is_some() ==> r.unwrap().view() == old(self)@[id@],
            final(self)@ == old(self)@.remove(id@),
    {
        match self.find(id) {
            None => {
                assert(self@.remove(id@) =~= self@);
                None
            },
            Some(idx) => {
                let ghost old_entries = self.entries@;
                let ghost old_topics = self.topics@;
                proof {
                    assert(old_topics.contains_key(old_entries[idx as int].0@));
                }
                let (_, metadata) = self.entries.remove(idx);
                self.topics = Ghost(self.topics@.remove(id@));
                proof {
                    let s = self.entries@;
                    let m = self.topics@;
                    let i0 = idx as int;
                    assert(m.dom() =~= old_topics.dom().remove(id@));
                    assert(m.dom().len() == old_topics.dom().len() - 1);
                    assert forall|j: int| 0 <= j < s.len() implies s[j] == (if j < i0 {
                        old_entries[j]
                    } else {
                        old_entries[j + 1]
                    }) by {}
                    assert forall|i: int| 0 <= i < s.len() implies #[trigger] m.contains_key(
                        s[i].0@,
                    ) && m[s[i].0@] == s[i].1.view() by {
                        if i < i0 {
                            assert(old_topics.contains_key(old_entries[i].0@));
                        } else {
                            assert(old_topics.contains_key(old_entries[i + 1].0@));
                        }
                    }
                    assert forall|key: Seq<char>| #[trigger] m.contains_key(key) implies exists|
                        i: int,
                    | 0 <= i < s.len() && s[i].0@ == key by {
                        assert(old_topics.contains_key(key));
                        let i = choose|i: int|
                            0 <= i < old_entries.len() && old_entries[i].0@ == key;
                        if i < i0 {
                            assert(s[i].0@ == key);
                        } else {
                            assert(s[i - 1].0@ == key);
                        }
                    }
                    assert forall|i: int, j: int| 0 <= i < j < s.len() implies s[i].0@
                        != s[j].0@ by {
                        if i < i0 && j >= i0 {
                            assert(old_entries[i].0@ != old_entries[j + 1].0@);
                        }
                    }
                }
                Some(metadata)
            },
        }
    }

    /// Replaces the metadata of the topic with this id. Fails, and changes nothing, if the id
    /// is not present.
    pub fn set_metadata(&mut self, id: &String, metadata: TopicMetadata) -> (r: bool)
        requires
            old(self).wf(),
        ensures
            final(self).wf(),
            r == old(self)@.contains_key(id@),
            r ==> final(self)@ == old(self)@.insert(id@, metadata.view()),
            !r ==> final(self)@ == old(self)@,
    {
        match self.find(id) {
            None => false,
            Some(idx) => {
                let ghost old_entries = self.entries@;
                let ghost old_topics = self.topics@;
                let key = self.entries[idx].0.clone();
                let ghost v = metadata.view();
                self.entries.set(idx, (key, metadata));
                self.topics = Ghost(self.topics@.insert(id@, v));
                proof {
                    let s = self.entries@;
                    let m = self.topics@;
                    let i0 = idx as int;
                    assert(m.dom() =~= old_topics.dom());
                    assert forall|i: int| 0 <= i < s.len() implies #[trigger] m.contains_key(
                        s[i].0@,
                    ) && m[s[i].0@] == s[i].1.view() by {
                        assert(old_topics.contains_key(old_entries[i].0@));
                        if i != i0 {
                            assert(old_entries[i].0@ != old_entries[i0].0@);
                        }
                    }
                    assert forall|key: Seq<char>| #[trigger] m.contains_key(key) implies exists|
                        i: int,
                    | 0 <= i < s.len() && s[i].0@ == key by {
                        assert(old_topics.contains_key(key));
                        let i = choose|i: int|
                            0 <= i < old_entries.len() && old_entries[i].0@ == key;
                        assert(s[i].0@ == key);
                    }
                    assert forall|i: int, j: int| 0 <= i < j < s.len() implies s[i].0@
                        != s[j].0@ by {
                        assert(old_entries[i].0@ != old_entries[j].0@);
                    }
                }
                true
            },
        }
    }

    /// Returns a copy of every entry, each topic id once.
    pub fn snapshot(&self) -> (r: Vec<(String, TopicMetadata)>)
        requires
            self.wf(),
        ensures
            lists_topics(r@, self@),
    {
        let mut r: Vec<(String, TopicMetadata)> = Vec::new();
        let mut i: usize = 0;
        while i < self.entries.len()
            invariant
                i <= self.entries@.len(),
                r@ == self.entries@.subrange(0, i as int),
            decreases self.entries@.len() - i,
        {
            let id = self.entries[i].0.clone();
            let metadata = self.entries[i].1.snapshot();
            r.push((id, metadata));
            i += 1;
            assert(r@ =~= self.entries@.subrange(0, i as int));
        }
        assert(r@ =~= self.entries@);
        r
    }
}

} // verus!
