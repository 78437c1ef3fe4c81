//! Topic management: the state machine that drives publisher callbacks.
//!
//! The [`TopicManager`] consumes [`MonitorMessage`]s from the broker connector and from its own
//! cleanup sweep, applies them to the registry of active topics, and returns the lifecycle
//! actions (`START`, `STOP`, `DELETE`) that the owning publishers are to be told about. It also
//! allocates fresh topics and marks topics for deletion on a publisher's request.
use vstd::prelude::*;
use vstd::string::StringExecFns;

use crate::pubsub_connector::{MonitorMessage, PubSubAction};
pub use crate::topic_registry::{
    clone_optional, lists_topics, optional_view, ActiveTopicsMap, TopicMetadata, TopicView,
};

verus! {

/// Seconds that a topic with no subscribers may stay idle before its publisher is reminded.
pub const STALE_THRESHOLD_SECS: u64 = 30;

/// Seconds between two runs of the cleanup sweep.
pub const CLEANUP_INTERVAL_SECS: u64 = 5;

/// How many freshly generated ids a topic creation tries before it gives up.
pub const MAX_TOPIC_ID_ATTEMPTS: u64 = 3;

/// Associates a topic with the publisher uri that is providing the topic updates.
#[derive(Debug, PartialEq)]
pub struct TopicManagementInfo {
    /// The topic name.
    pub topic: String,
    /// The management uri for the topic.
    pub uri: String,
}

impl TopicManagementInfo {
    /// Creates a new TopicManagementInfo instance.
    ///
    /// # Arguments
    ///
    /// * `topic` - The topic name.
    /// * `uri` - The management uri for the topic.
    pub fn new(topic: String, uri: String) -> (r: Self)
        ensures
            r.topic == topic,
            r.uri == uri,
    {
        TopicManagementInfo { topic, uri }
    }
}

/// The kind of a lifecycle notification to a publisher.
pub enum ActionKind {
    /// The topic has gained its first subscriber.
    Start,
    /// The topic has no subscribers left.
    Stop,
    /// The topic has been removed.
    Delete,
}

impl ActionKind {
    /// The name under which the publisher is told of the action.
    pub open spec fn spec_name(self) -> Seq<char> {
        match self {
            ActionKind::Start => "START"@,
            ActionKind::Stop => "STOP"@,
            ActionKind::Delete => "DELETE"@,
        }
    }
}

/// A lifecycle notification as the contracts see it.
pub struct ActionView {
    /// What happened to the topic.
    pub kind: ActionKind,
    /// The topic.
    pub topic: Seq<char>,
    /// Where the owning publisher takes notifications.
    pub uri: Seq<char>,
}

/// Enum that is used to describe an action to take on a topic with the relevant topic information.
#[derive(Debug, PartialEq)]
pub enum TopicAction {
    /// Start enum.
    Start(TopicManagementInfo),
    /// Stop enum.
    Stop(TopicManagementInfo),
    /// Delete enum.
    Delete(TopicManagementInfo),
}

impl TopicAction {
    /// The action as the contracts see it.
    pub open spec fn view(&self) -> ActionView {
        match self {
            TopicAction::Start(info) => ActionView {
                kind: ActionKind::Start,
                topic: info.topic@,
                uri: info.uri@,
            },
            TopicAction::Stop(info) => ActionView {
                kind: ActionKind::Stop,
                topic: info.topic@,
                uri: info.uri@,
            },
            TopicAction::Delete(info) => ActionView {
                kind: ActionKind::Delete,
                topic: info.topic@,
                uri: info.uri@,
            },
        }
    }
}

/// Structure that has metadata for a given action on a topic, with a management uri to
/// provide the update to.
pub struct TopicActionMetadata {
    /// Topic that the action is happening to.
    pub topic: String,
    /// Management uri for the publisher.
    pub uri: String,
    /// Action on the topic: `"START"`, `"STOP"` or `"DELETE"`.
    pub action: String,
}

impl TopicActionMetadata {
    /// Creates a new TopicActionMetadata.
    ///
    /// # Arguments
    ///
    /// * `action` - An action to convert to metadata.
    pub fn new(action: TopicAction) -> (r: Self)
        ensures
            r.topic@ == action.view().topic,
            r.uri@ == action.view().uri,
            r.action@ == action.view().kind.spec_name(),
    {
        match action {
            TopicAction::Start(info) => TopicActionMetadata {
                topic: info.topic,
                uri: info.uri,
                action: "START".to_string(),
            },
            TopicAction::Stop(info) => TopicActionMetadata {
                topic: info.topic,
                uri: info.uri,
                action: "STOP".to_string(),
            },
            TopicAction::Delete(info) => TopicActionMetadata {
                topic: info.topic,
                uri: info.uri,
                action: "DELETE".to_string(),
            },
        }
    }

    /// Whether the publisher is to be called about this action.
    ///
    /// A `DELETE` is never sent to the publisher: deletion is always the publisher's own request
    /// or follows its disconnect. The topic is removed from the broker instead.
    pub fn notifies_publisher(&self) -> (r: bool)
        ensures
            r == (self.action@ != "DELETE"@),
    {
        let delete = PubSubAction::Delete.to_string();
        !(self.action == delete)
    }
}

/// A subscriber count after one more subscription; it stays put at the largest `u64`.
pub open spec fn count_after_subscribe(count: nat) -> nat {
    if count < u64::MAX {
        count + 1
    } else {
        count
    }
}

/// A subscriber count after one unsubscription, clamped at zero.
pub open spec fn count_after_unsubscribe(count: nat) -> nat {
    if count > 0 {
        (count - 1) as nat
    } else {
        0
    }
}

/// The entry that a subscription to an unknown topic creates: no owner, no callback, one
/// subscriber.
pub open spec fn placeholder_topic(now: u64) -> TopicView {
    TopicView {
        owner: Seq::empty(),
        count: 1,
        deleted: false,
        last_action: now as int,
        callback: None,
    }
}

/// A topic that a publisher has just created.
pub open spec fn created_topic(publisher_id: Seq<char>, callback: Seq<char>, now: u64) -> TopicView {
    TopicView {
        owner: publisher_id,
        count: 0,
        deleted: false,
        last_action: now as int,
        callback: Some(callback),
    }
}

/// The notification of `kind` about `topic`, if the topic has a callback to send it to.
pub open spec fn notification(kind: ActionKind, topic: Seq<char>, t: TopicView) -> Option<
    ActionView,
> {
    match t.callback {
        Some(uri) => Some(ActionView { kind, topic, uri }),
        None => None,
    }
}

/// The registry after one event on topic `ctx` at time `now`.
pub open spec fn next_topics(
    m: Map<Seq<char>, TopicView>,
    action: PubSubAction,
    ctx: Seq<char>,
    now: u64,
) -> Map<Seq<char>, TopicView> {
    match action {
        PubSubAction::Subscribe => if m.contains_key(ctx) {
            m.insert(
                ctx,
                TopicView {
                    count: count_after_subscribe(m[ctx].count),
                    last_action: now as int,
                    ..m[ctx]
                },
            )
        } else {
            m.insert(ctx, placeholder_topic(now))
        },
        PubSubAction::Unsubscribe => if m.contains_key(ctx) {
            m.insert(
                ctx,
                TopicView {
                    count: count_after_unsubscribe(m[ctx].count),
                    last_action: now as int,
                    ..m[ctx]
                },
            )
        } else {
            m
        },
        PubSubAction::Timeout => if m.contains_key(ctx) {
            m.insert(ctx, TopicView { last_action: now as int, ..m[ctx] })
        } else {
            m
        },
        PubSubAction::Delete => m.remove(ctx),
        PubSubAction::PubDisconnect => m,
    }
}

/// The notification that one event on topic `ctx` emits.
///
/// `START` when the count leaves zero, `STOP` when it reaches zero from one or when an idle
/// topic times out, `DELETE` when the topic is removed; each only for a topic with a callback.
pub open spec fn emitted_action(
    m: Map<Seq<char>, TopicView>,
    action: PubSubAction,
    ctx: Seq<char>,
) -> Option<ActionView> {
    if !m.contains_key(ctx) {
        None
    } else {
        match action {
            PubSubAction::Subscribe => if m[ctx].count == 0 {
                notification(ActionKind::Start, ctx, m[ctx])
            } else {
                None
            },
            PubSubAction::Unsubscribe => if m[ctx].count == 1 {
                notification(ActionKind::Stop, ctx, m[ctx])
            } else {
                None
            },
            PubSubAction::Timeout => if m[ctx].count == 0 {
                notification(ActionKind::Stop, ctx, m[ctx])
            } else {
                None
            },
            PubSubAction::Delete => notification(ActionKind::Delete, ctx, m[ctx]),
            PubSubAction::PubDisconnect => None,
        }
    }
}

/// The view of an optional action.
pub open spec fn optional_action_view(a: Option<TopicAction>) -> Option<ActionView> {
    match a {
        Some(action) => Some(action.view()),
        None => None,
    }
}

/// The registry after `DeleteTopic(topic)`: the topic, if present, is marked for deletion.
pub open spec fn marked_for_deletion(m: Map<Seq<char>, TopicView>, topic: Seq<char>) -> Map<
    Seq<char>,
    TopicView,
> {
    if m.contains_key(topic) {
        m.insert(topic, TopicView { deleted: true, ..m[topic] })
    } else {
        m
    }
}

/// The topics that the publisher `publisher_id` owns.
pub open spec fn owned_topics(m: Map<Seq<char>, TopicView>, publisher_id: Seq<char>) -> Set<
    Seq<char>,
> {
    Set::new(|k: Seq<char>| m.contains_key(k) && m[k].owner == publisher_id)
}

/// `s` lists the ids in `ids`, each once.
pub open spec fn lists_ids(s: Seq<String>, ids: Set<Seq<char>>) -> bool {
    &&& forall|i: int| 0 <= i < s.len() ==> #[trigger] ids.contains(s[i]@)
    &&& forall|k: Seq<char>| #[trigger] ids.contains(k) ==> exists|i: int| 0 <= i < s.len() && s[i]@ == k
    &&& forall|i: int, j: int| 0 <= i < j < s.len() ==> s[i]@ != s[j]@
}

/// What the cleanup sweep asks for a topic at time `now`: its removal if it is marked for
/// deletion, else a reminder if it has had no subscribers for longer than the stale threshold.
pub open spec fn sweep_action(t: TopicView, now: u64) -> Option<PubSubAction> {
    if t.deleted {
        Some(PubSubAction::Delete)
    } else if t.count == 0 && now - t.last_action > STALE_THRESHOLD_SECS {
        Some(PubSubAction::Timeout)
    } else {
        None
    }
}

/// The sweep at `now` asks for what `msg` says, of a topic of `m`.
pub open spec fn sweep_asks(m: Map<Seq<char>, TopicView>, msg: MonitorMessage, now: u64) -> bool {
    m.contains_key(msg.context@) && sweep_action(m[msg.context@], now) == Some(msg.action)
}

/// `s` holds, once for each topic of `m` that the sweep at `now` acts on, the message asking
/// for that action.
pub open spec fn lists_sweep(s: Seq<MonitorMessage>, m: Map<Seq<char>, TopicView>, now: u64) -> bool {
    &&& forall|i: int| 0 <= i < s.len() ==> #[trigger] sweep_asks(m, s[i], now)
    &&& forall|k: Seq<char>|
        #[trigger] m.contains_key(k) && sweep_action(m[k], now).is_some() ==> exists|i: int|
            0 <= i < s.len() && s[i].context@ == k
    &&& forall|i: int, j: int| 0 <= i < j < s.len() ==> s[i].context@ != s[j].context@
}

/// The `DELETE` notifications for the topics `ids` of `m` that have a callback.
pub open spec fn deletions(m: Map<Seq<char>, TopicView>, ids: Set<Seq<char>>) -> Set<ActionView> {
    Set::new(
        |a: ActionView|
            ids.contains(a.topic) && m.contains_key(a.topic) && notification(
                ActionKind::Delete,
                a.topic,
                m[a.topic],
            ) == Some(a),
    )
}

/// The registry after a message: a publisher's disconnect removes every topic it owns; any
/// other message is one event on one topic.
pub open spec fn topics_after_message(
    m: Map<Seq<char>, TopicView>,
    action: PubSubAction,
    ctx: Seq<char>,
    now: u64,
) -> Map<Seq<char>, TopicView> {
    if action == PubSubAction::PubDisconnect {
        m.remove_keys(owned_topics(m, ctx))
    } else {
        next_topics(m, action, ctx, now)
    }
}

/// The notifications that a message emits.
pub open spec fn actions_of_message(
    m: Map<Seq<char>, TopicView>,
    action: PubSubAction,
    ctx: Seq<char>,
) -> Set<ActionView> {
    if action == PubSubAction::PubDisconnect {
        deletions(m, owned_topics(m, ctx))
    } else {
        match emitted_action(m, action, ctx) {
            Some(a) => set![a],
            None => Set::empty(),
        }
    }
}

/// `s` holds the notifications `acts`, each once.
pub open spec fn lists_actions(s: Seq<TopicAction>, acts: Set<ActionView>) -> bool {
    &&& forall|i: int| 0 <= i < s.len() ==> #[trigger] acts.contains(s[i].view())
    &&& forall|a: ActionView| #[trigger] acts.contains(a) ==> exists|i: int| 0 <= i < s.len() && s[i].view() == a
    &&& forall|i: int, j: int| 0 <= i < j < s.len() ==> s[i].view() != s[j].view()
}

/// The ids among the first `n` of `s`.
pub open spec fn prefix_ids(s: Seq<String>, n: int) -> Set<Seq<char>> {
    Set::new(|k: Seq<char>| exists|j: int| 0 <= j < n && s[j]@ == k)
}

/// A lower case hexadecimal digit.
pub open spec fn is_lower_hex_digit(c: char) -> bool {
    ('0' <= c && c <= '9') || ('a' <= c && c <= 'f')
}

/// `s` is a version 4 UUID in its hyphenated lower case form: 36 characters, hyphens at
/// positions 8, 13, 18 and 23, lower case hexadecimal digits elsewhere, version digit `4` at
/// position 14 and variant digit `8`, `9`, `a` or `b` at position 19.
pub open spec fn is_uuid_v4_text(s: Seq<char>) -> bool {
    &&& s.len() == 36
    &&& forall|i: int|
        0 <= i < 36 ==> if i == 8 || i == 13 || i == 18 || i == 23 {
            #[trigger] s[i] == '-'
        } else {
            is_lower_hex_digit(s[i])
        }
    &&& s[14] == '4'
    &&& (s[19] == '8' || s[19] == '9' || s[19] == 'a' || s[19] == 'b')
}

/// Relies on `uuid::Uuid::new_v4` and the `Display` of `uuid::Uuid`: a random version 4 UUID
/// (version and variant bits set by `new_v4`), written by `Display` in its hyphenated lower
/// case form. (`new_v4` panics only when the operating system's random number source fails.)
#[verifier::external_body]
fn generate_topic_id() -> (r: String)
    ensures
        is_uuid_v4_text(r@),
{
    uuid::Uuid::new_v4().to_string()
}

/// Handles the management of dynamic topics based on actions on the topic.
///
/// This structure owns the registry of active topics. It processes actions from the broker
/// connector and from creation and deletion requests from publishers.
pub struct TopicManager {
    /// The registry of active topics.
    pub active_topics: ActiveTopicsMap,
}

impl View for TopicManager {
    type V = Map<Seq<char>, TopicView>;

    open spec fn view(&self) -> Map<Seq<char>, TopicView> {
        self.active_topics@
    }
}

impl Default for TopicManager {
    fn default() -> (r: Self)
        ensures
            r.wf(),
            r@ == Map::<Seq<char>, TopicView>::empty(),
    {
        Self::new()
    }
}

impl TopicManager {
    /// The registry is well formed.
    pub open spec fn wf(&self) -> bool {
        self.active_topics.wf()
    }

    /// Instantiates a new TopicManager with no topics.
    pub fn new() -> (r: Self)
        ensures
            r.wf(),
            r@ == Map::<Seq<char>, TopicView>::empty(),
    {
        TopicManager { active_topics: ActiveTopicsMap::new() }
    }

    /// Returns the registry of active topics.
    pub fn get_active_topics_handle(&self) -> (r: &ActiveTopicsMap)
        ensures
            r@ == self@,
    {
        &self.active_topics
    }

    /// Updates a topic's metadata based on a [`MonitorMessage`] received at time `now`, and
    /// returns the notification for the topic's publisher, if any.
    ///
    /// A [`PubSubAction::PubDisconnect`] is not about one topic and changes nothing here; see
    /// [`TopicManager::handle_topic_action`].
    pub fn update_topic(&mut self, msg: MonitorMessage, now: u64) -> (r: Option<TopicAction>)
        requires
            old(self).wf(),
        ensures
            final(self).wf(),
            final(self)@ == next_topics(old(self)@, msg.action, msg.context@, now),
            optional_action_view(r) == emitted_action(old(self)@, msg.action, msg.context@),
    {
        let context = msg.context;
        match msg.action {
            PubSubAction::Subscribe => {
                let current = match self.active_topics.get(&context) {
                    Some(metadata) => Some(metadata.snapshot()),
                    None => None,
                };
                match current {
                    None => {
                        // A subscriber raced ahead of its publisher: record the subscription
                        // and leave the callback unset until a publisher claims the topic.
                        let placeholder = TopicMetadata::new(String::new(), 1, None, now);
                        self.active_topics.insert(context, placeholder);
                        None
                    },
                    Some(mut metadata) => {
                        let was_idle = metadata.count == 0;
                        if metadata.count < u64::MAX {
                            metadata.count = metadata.count + 1;
                        }
                        metadata.reset_timeout(now);
                        let callback = metadata.get_management_callback();
                        self.active_topics.set_metadata(&context, metadata);
                        match callback {
                            Some(uri) => if was_idle {
                                Some(TopicAction::Start(TopicManagementInfo::new(context, uri)))
                            } else {
                                None
                            },
                            None => None,
                        }
                    },
                }
            },
            PubSubAction::Unsubscribe => {
                let current = match self.active_topics.get(&context) {
                    Some(metadata) => Some(metadata.snapshot()),
                    None => None,
                };
                match current {
                    None => None,
                    Some(mut metadata) => {
                        let was_last = metadata.count == 1;
                        if metadata.count > 0 {
                            metadata.count = metadata.count - 1;
                        }
                        metadata.reset_timeout(now);
                        let callback = metadata.get_management_callback();
                        self.active_topics.set_metadata(&context, metadata);
                        match callback {
                            Some(uri) => if was_last {
                                Some(TopicAction::Stop(TopicManagementInfo::new(context, uri)))
                            } else {
                                None
                            },
                            None => None,
                        }
                    },
                }
            },
            PubSubAction::Timeout => {
                let current = match self.active_topics.get(&context) {
                    Some(metadata) => Some(metadata.snapshot()),
                    None => None,
                };
                match current {
                    None => None,
                    Some(mut metadata) => {
                        let idle = metadata.count == 0;
                        metadata.reset_timeout(now);
                        let callback = metadata.get_management_callback();
                        self.active_topics.set_metadata(&context, metadata);
                        match callback {
                            Some(uri) => if idle {
                                Some(TopicAction::Stop(TopicManagementInfo::new(context, uri)))
                            } else {
                                None
                            },
                            None => None,
                        }
                    },
                }
            },
            PubSubAction::Delete => match self.active_topics.remove(&context) {
                Some(metadata) => match metadata.management_callback {
                    Some(uri) => Some(TopicAction::Delete(TopicManagementInfo::new(context, uri))),
                    None => None,
                },
                None => None,
            },
            PubSubAction::PubDisconnect => None,
        }
    }
    /// Marks the topic for deletion; the next cleanup sweep removes it. A topic that is not
    /// present is left alone.
    pub fn delete_topic(&mut self, topic: &String)
        requires
            old(self).wf(),
        ensures
            final(self).wf(),
            final(self)@ == marked_for_deletion(old(self)@, topic@),
    {
        let current = match self.active_topics.get(topic) {
            Some(metadata) => Some(metadata.snapshot()),
            None => None,
        };
        if let Some(mut metadata) = current {
            metadata.delete();
            self.active_topics.set_metadata(topic, metadata);
        }
    }

    /// Registers a topic under the given id for the publisher `publisher_id`, with no
    /// subscribers, last touched at `now`. Fails, and changes nothing, if the id is taken.
    pub fn create_topic_with_id(
        &mut self,
        topic: String,
        publisher_id: String,
        management_callback: String,
        now: u64,
    ) -> (r: bool)
        requires
            old(self).wf(),
        ensures
            final(self).wf(),
            r == !old(self)@.contains_key(topic@),
            r ==> final(self)@ == old(self)@.insert(
                topic@,
                created_topic(publisher_id@, management_callback@, now),
            ),
            !r ==> final(self)@ == old(self)@,
    {
        let metadata = TopicMetadata::new(publisher_id, 0, Some(management_callback), now);
        self.active_topics.insert(topic, metadata)
    }

    /// Returns the longest topic id present, if there is any topic.
    fn longest_topic_id(&self) -> (r: Option<String>)
        requires
            self.wf(),
        ensures
            match r {
                Some(id) => self@.contains_key(id@) && forall|k: Seq<char>|
                    #[trigger] self@.contains_key(k) ==> k.len() <= id@.len(),
                None => self@.dom() =~= Set::<Seq<char>>::empty(),
            },
    {
        let entries = self.active_topics.snapshot();
        let ghost m = self@;
        if entries.len() == 0 {
            proof {
                assert forall|k: Seq<char>| !m.contains_key(k) by {
                    if m.contains_key(k) {
                        let i = choose|i: int| 0 <= i < entries@.len() && entries@[i].0@ == k;
                    }
                }
            }
            return None;
        }
        let mut best: usize = 0;
        let mut i: usize = 1;
        while i < entries.len()
            invariant
                lists_topics(entries@, m),
                0 < entries@.len(),
                best < i <= entries@.len(),
                forall|j: int| 0 <= j < i ==> entries@[j].0@.len() <= entries@[best as int].0@.len(),
            decreases entries@.len() - i,
        {
            if entries[i].0.unicode_len() > entries[best].0.unicode_len() {
                best = i;
            }
            i += 1;
        }
        proof {
            assert(m.contains_key(entries@[best as int].0@));
            assert forall|k: Seq<char>| #[trigger] m.contains_key(k) implies k.len()
                <= entries@[best as int].0@.len() by {
                let j = choose|j: int| 0 <= j < entries@.len() && entries@[j].0@ == k;
            }
        }
        Some(entries[best].0.clone())
    }

    /// Allocates a fresh topic for the publisher `publisher_id` and returns its id.
    ///
    /// The id is a newly generated version 4 UUID. Should it collide with a topic that is
    /// already present, another is generated, up to [`MAX_TOPIC_ID_ATTEMPTS`] ids in all. Should
    /// every one of them collide, the id is the longest id present followed by a `-`, which no
    /// topic has. So the creation always succeeds; and the id is a UUID whenever no topic
    /// present has an id of a UUID's length, since no generated id can collide then.
    pub fn create_topic(&mut self, publisher_id: String, management_callback: String, now: u64) -> (r:
        String)
        requires
            old(self).wf(),
        ensures
            final(self).wf(),
            !old(self)@.contains_key(r@),
            final(self)@ == old(self)@.insert(
                r@,
                created_topic(publisher_id@, management_callback@, now),
            ),
            (forall|k: Seq<char>| #[trigger] old(self)@.contains_key(k) ==> k.len() != 36)
                ==> is_uuid_v4_text(r@),
    {
        let mut attempt: u64 = 0;
        while attempt < MAX_TOPIC_ID_ATTEMPTS
            invariant
                self.wf(),
                self@ == old(self)@,
                attempt > 0 ==> exists|k: Seq<char>|
                    #[trigger] old(self)@.contains_key(k) && k.len() == 36,
            decreases MAX_TOPIC_ID_ATTEMPTS - attempt,
        {
            let topic = generate_topic_id();
            if !self.active_topics.contains_key(&topic) {
                let created = self.create_topic_with_id(
                    topic.clone(),
                    publisher_id,
                    management_callback,
                    now,
                );
                assert(created);
                return topic;
            }
            assert(old(self)@.contains_key(topic@) && topic@.len() == 36);
            attempt += 1;
        }
        // Every generated id collided: a topic is present, so there is a longest id.
        let longest = self.longest_topic_id();
        let base = match longest {
            Some(id) => id,
            None => {
                proof {
                    let k = choose|k: Seq<char>| #[trigger] old(self)@.contains_key(k) && k.len() == 36;
                    assert(self@.dom().contains(k));
                }
                String::new()
            },
        };
        let topic = base.concat("-");
        proof {
            reveal_strlit("-");
            assert(topic@.len() == base@.len() + 1);
            if self@.contains_key(topic@) {
                assert(topic@.len() <= base@.len());
            }
        }
        let created = self.create_topic_with_id(topic.clone(), publisher_id, management_callback, now);
        assert(created);
        topic
    }

    /// Returns the ids of the topics that the publisher `publisher_id` owns.
    pub fn topics_owned_by(&self, publisher_id: &String) -> (r: Vec<String>)
        requires
            self.wf(),
        ensures
            lists_ids(r@, owned_topics(self@, publisher_id@)),
    {
        let entries = self.active_topics.snapshot();
        let ghost m = self@;
        let ghost owned = owned_topics(m, publisher_id@);
        let mut r: Vec<String> = Vec::new();
        let mut i: usize = 0;
        while i < entries.len()
            invariant
                lists_topics(entries@, m),
                owned == owned_topics(m, publisher_id@),
                i <= entries@.len(),
                forall|l: int| 0 <= l < r@.len() ==> #[trigger] owned.contains(r@[l]@),
                forall|l: int|
                    0 <= l < r@.len() ==> exists|j: int| 0 <= j < i && entries@[j].0@ == #[trigger] r@[l]@,
                forall|j: int|
                    0 <= j < i && #[trigger] owned.contains(entries@[j].0@) ==> exists|l: int|
                        0 <= l < r@.len() && r@[l]@ == entries@[j].0@,
                forall|l1: int, l2: int| 0 <= l1 < l2 < r@.len() ==> r@[l1]@ != r@[l2]@,
            decreases entries@.len() - i,
        {
            proof {
                assert(m.contains_key(entries@[i as int].0@));
            }
            if entries[i].1.client_id == *publisher_id {
                let ghost before = r@;
                r.push(entries[i].0.clone());
                proof {
                    assert(r@[r@.len() - 1] == entries@[i as int].0);
                    assert forall|l: int| 0 <= l < before.len() implies before[l]@
                        != entries@[i as int].0@ by {
                        let j = choose|j: int| 0 <= j < i && entries@[j].0@ == before[l]@;
                        assert(entries@[j].0@ != entries@[i as int].0@);
                    }
                    assert forall|l: int| 0 <= l < r@.len() implies exists|j: int|
                        0 <= j < i + 1 && entries@[j].0@ == #[trigger] r@[l]@ by {
                        if l < before.len() {
                            assert(r@[l] == before[l]);
                        } else {
                            assert(entries@[i as int].0@ == r@[l]@);
                        }
                    }
                    assert forall|j: int|
                        0 <= j < i + 1 && #[trigger] owned.contains(entries@[j].0@) implies exists|
                        l: int,
                    | 0 <= l < r@.len() && r@[l]@ == entries@[j].0@ by {
                        if j < i {
                            let l = choose|l: int|
                                0 <= l < before.len() && before[l]@ == entries@[j].0@;
                            assert(r@[l] == before[l]);
                        } else {
                            assert(r@[r@.len() - 1]@ == entries@[j].0@);
                        }
                    }
                }
            } else {
                proof {
                    assert(!owned.contains(entries@[i as int].0@));
                }
            }
            i += 1;
        }
        proof {
            assert forall|k: Seq<char>| #[trigger] owned.contains(k) implies exists|l: int|
                0 <= l < r@.len() && r@[l]@ == k by {
                let j = choose|j: int| 0 <= j < entries@.len() && entries@[j].0@ == k;
                assert(owned.contains(entries@[j].0@));
            }
        }
        r
    }
    /// The cleanup sweep at time `now`: asks for the removal of every topic marked for
    /// deletion, and for a reminder on every topic that has had no subscribers for longer than
    /// [`STALE_THRESHOLD_SECS`]. The messages are to be fed back to
    /// [`TopicManager::handle_topic_action`].
    pub fn cleanup_topics(&self, now: u64) -> (r: Vec<MonitorMessage>)
        requires
            self.wf(),
        ensures
            lists_sweep(r@, self@, now),
    {
        let entries = self.active_topics.snapshot();
        let ghost m = self@;
        let mut r: Vec<MonitorMessage> = Vec::new();
        let mut i: usize = 0;
        while i < entries.len()
            invariant
                lists_topics(entries@, m),
                i <= entries@.len(),
                forall|l: int| 0 <= l < r@.len() ==> #[trigger] sweep_asks(m, r@[l], now),
                forall|l: int|
                    0 <= l < r@.len() ==> exists|j: int|
                        0 <= j < i && entries@[j].0@ == #[trigger] r@[l].context@,
                forall|j: int|
                    0 <= j < i && #[trigger] sweep_action(entries@[j].1.view(), now).is_some()
                        ==> exists|l: int| 0 <= l < r@.len() && r@[l].context@ == entries@[j].0@,
                forall|l1: int, l2: int|
                    0 <= l1 < l2 < r@.len() ==> r@[l1].context@ != r@[l2].context@,
            decreases entries@.len() - i,
        {
            proof {
                assert(m.contains_key(entries@[i as int].0@));
            }
            let metadata = &entries[i].1;
            let action = if metadata.is_deleted() {
                Some(PubSubAction::Delete)
            } else if metadata.count == 0 && now >= metadata.get_timeout() && now
                - metadata.get_timeout() > STALE_THRESHOLD_SECS {
                Some(PubSubAction::Timeout)
            } else {
                None
            };
            assert(action == sweep_action(entries@[i as int].1.view(), now));
            if let Some(action) = action {
                let ghost before = r@;
                r.push(MonitorMessage { context: entries[i].0.clone(), action });
                proof {
                    assert(r@[r@.len() - 1].context@ == entries@[i as int].0@);
                    assert forall|l: int| 0 <= l < r@.len() implies #[trigger] sweep_asks(
                        m,
                        r@[l],
                        now,
                    ) by {
                        if l < before.len() {
                            assert(r@[l] == before[l]);
                        } else {
                            assert(r@[l].context@ == entries@[i as int].0@);
                            assert(r@[l].action == action);
                        }
                    }
                    assert forall|l: int| 0 <= l < before.len() implies before[l].context@
                        != entries@[i as int].0@ by {
                        let j = choose|j: int| 0 <= j < i && entries@[j].0@ == before[l].context@;
                        assert(entries@[j].0@ != entries@[i as int].0@);
                    }
                    assert forall|l: int| 0 <= l < r@.len() implies exists|j: int|
                        0 <= j < i + 1 && entries@[j].0@ == #[trigger] r@[l].context@ by {
                        if l < before.len() {
                            assert(r@[l] == before[l]);
                        } else {
                            assert(entries@[i as int].0@ == r@[l].context@);
                        }
                    }
                    assert forall|j: int|
                        0 <= j < i + 1 && #[trigger] sweep_action(
                            entries@[j].1.view(),
                            now,
                        ).is_some() implies exists|l: int|
                        0 <= l < r@.len() && r@[l].context@ == entries@[j].0@ by {
                        if j < i {
                            let l = choose|l: int|
                                0 <= l < before.len() && before[l].context@ == entries@[j].0@;
                            assert(r@[l] == before[l]);
                        } else {
                            assert(r@[r@.len() - 1].context@ == entries@[j].0@);
                        }
                    }
                }
            }
            i += 1;
        }
        proof {
            assert forall|k: Seq<char>|
                #[trigger] m.contains_key(k) && sweep_action(m[k], now).is_some() implies exists|
                l: int,
            | 0 <= l < r@.len() && r@[l].context@ == k by {
                let j = choose|j: int| 0 <= j < entries@.len() && entries@[j].0@ == k;
                assert(sweep_action(entries@[j].1.view(), now).is_some());
            }
        }
        r
    }
    /// Processes a [`MonitorMessage`] received at time `now` and returns the notifications for
    /// the publishers concerned.
    ///
    /// A publisher's disconnect deletes every topic that the publisher owns, as a `Delete`
    /// event on each; any other message is handled by [`TopicManager::update_topic`]. Of the
    /// returned actions, `START` and `STOP` are sent to the publisher's callback, while `DELETE`
    /// asks for the topic's removal from the broker (see
    /// [`TopicActionMetadata::notifies_publisher`]).
    pub fn handle_topic_action(&mut self, msg: MonitorMessage, now: u64) -> (r: Vec<TopicAction>)
        requires
            old(self).wf(),
        ensures
            final(self).wf(),
            final(self)@ == topics_after_message(old(self)@, msg.action, msg.context@, now),
            lists_actions(r@, actions_of_message(old(self)@, msg.action, msg.context@)),
    {
        let ghost m0 = self@;
        let ghost ctx = msg.context@;
        let mut actions: Vec<TopicAction> = Vec::new();
        if msg.action != PubSubAction::PubDisconnect {
            let action = msg.action;
            if let Some(a) = self.update_topic(msg, now) {
                actions.push(a);
                proof {
                    assert(actions@[0] == a);
                    assert(actions_of_message(m0, action, ctx) =~= set![a.view()]);
                }
            } else {
                proof {
                    assert(actions_of_message(m0, action, ctx) =~= Set::empty());
                }
            }
            return actions;
        }
        let owned = self.topics_owned_by(&msg.context);
        let mut i: usize = 0;
        while i < owned.len()
            invariant
                self.wf(),
                lists_ids(owned@, owned_topics(m0, ctx)),
                i <= owned@.len(),
                self@ == m0.remove_keys(prefix_ids(owned@, i as int)),
                lists_actions(actions@, deletions(m0, prefix_ids(owned@, i as int))),
            decreases owned@.len() - i,
        {
            let ghost before = actions@;
            let ghost cur = self@;
            let topic = owned[i].clone();
            let ghost t = topic@;
            proof {
                assert(owned_topics(m0, ctx).contains(owned@[i as int]@));
                assert(!prefix_ids(owned@, i as int).contains(t)) by {
                    if prefix_ids(owned@, i as int).contains(t) {
                        let j = choose|j: int| 0 <= j < i && owned@[j]@ == t;
                        assert(owned@[j]@ != owned@[i as int]@);
                    }
                }
                assert(cur.contains_key(t));
                assert(cur[t] == m0[t]);
            }
            let result = self.update_topic(
                MonitorMessage { context: topic, action: PubSubAction::Delete },
                now,
            );
            proof {
                assert(prefix_ids(owned@, i + 1) =~= prefix_ids(owned@, i as int).insert(t)) by {
                    assert forall|k: Seq<char>| prefix_ids(owned@, i + 1).contains(k) implies
                        prefix_ids(owned@, i as int).insert(t).contains(k) by {
                        let j = choose|j: int| 0 <= j < i + 1 && owned@[j]@ == k;
                        if j < i {
                            assert(prefix_ids(owned@, i as int).contains(k));
                        }
                    }
                    assert forall|k: Seq<char>| prefix_ids(owned@, i as int).insert(t).contains(
                        k,
                    ) implies prefix_ids(owned@, i + 1).contains(k) by {
                        if k == t {
                            assert(owned@[i as int]@ == k);
                        } else {
                            let j = choose|j: int| 0 <= j < i && owned@[j]@ == k;
                            assert(owned@[j]@ == k);
                        }
                    }
                }
                assert(self@ =~= m0.remove_keys(prefix_ids(owned@, i + 1)));
            }
            if let Some(a) = result {
                actions.push(a);
                proof {
                    assert(a.view() == ActionView {
                        kind: ActionKind::Delete,
                        topic: t,
                        uri: m0[t].callback.unwrap(),
                    });
                    assert forall|l: int| 0 <= l < before.len() implies before[l].view().topic
                        != t by {
                        assert(deletions(m0, prefix_ids(owned@, i as int)).contains(
                            before[l].view(),
                        ));
                    }
                    assert(actions@[actions@.len() - 1] == a);
                    assert forall|l: int| 0 <= l < actions@.len() implies #[trigger] deletions(
                        m0,
                        prefix_ids(owned@, i + 1),
                    ).contains(actions@[l].view()) by {
                        if l < before.len() {
                            assert(actions@[l] == before[l]);
                            assert(deletions(m0, prefix_ids(owned@, i as int)).contains(
                                before[l].view(),
                            ));
                        }
                    }
                    assert forall|b: ActionView| #[trigger] deletions(
                        m0,
                        prefix_ids(owned@, i + 1),
                    ).contains(b) implies exists|l: int|
                        0 <= l < actions@.len() && actions@[l].view() == b by {
                        if b.topic == t {
                            assert(actions@[actions@.len() - 1].view() == b);
                        } else {
                            assert(deletions(m0, prefix_ids(owned@, i as int)).contains(b));
                            let l = choose|l: int| 0 <= l < before.len() && before[l].view() == b;
                            assert(actions@[l] == before[l]);
                        }
                    }
                }
            } else {
                proof {
                    assert(m0[t].callback.is_none());
                    assert forall|b: ActionView| #[trigger] deletions(
                        m0,
                        prefix_ids(owned@, i + 1),
                    ).contains(b) implies deletions(m0, prefix_ids(owned@, i as int)).contains(
                        b,
                    ) by {}
                    assert forall|l: int| 0 <= l < actions@.len() implies #[trigger] deletions(
                        m0,
                        prefix_ids(owned@, i + 1),
                    ).contains(actions@[l].view()) by {
                        assert(deletions(m0, prefix_ids(owned@, i as int)).contains(
                            actions@[l].view(),
                        ));
                    }
                }
            }
            i += 1;
        }
        proof {
            assert(prefix_ids(owned@, owned@.len() as int) =~= owned_topics(m0, ctx)) by {
                assert forall|k: Seq<char>| owned_topics(m0, ctx).contains(k) implies prefix_ids(
                    owned@,
                    owned@.len() as int,
                ).contains(k) by {
                    let j = choose|j: int| 0 <= j < owned@.len() && owned@[j]@ == k;
                    assert(owned@[j]@ == k);
                }
                assert forall|k: Seq<char>| prefix_ids(owned@, owned@.len() as int).contains(
                    k,
                ) implies owned_topics(m0, ctx).contains(k) by {
                    let j = choose|j: int| 0 <= j < owned@.len() && owned@[j]@ == k;
                    assert(owned_topics(m0, ctx).contains(owned@[j]@));
                }
            }
        }
        actions
    }
}

} // verus!
