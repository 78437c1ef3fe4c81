//! Properties of the topic lifecycle over whole sequences of events.
//!
//! The manager's contracts say what one message does. The lemmas here follow the registry
//! through any sequence of messages, and through the create / delete / sweep cycle.
use vstd::prelude::*;

use crate::pubsub_connector::PubSubAction;
use crate::topic_manager::{
    actions_of_message, count_after_unsubscribe, created_topic, emitted_action,
    marked_for_deletion, next_topics, placeholder_topic, sweep_action, topics_after_message,
    ActionKind, ActionView,
};
use crate::topic_registry::TopicView;

verus! {

/// One message as the manager receives it: what happened, to which topic (or publisher), and
/// when.
pub struct TopicEvent {
    /// What happened.
    pub action: PubSubAction,
    /// The topic, or for a disconnect the publisher's id.
    pub context: Seq<char>,
    /// The time of arrival, in seconds of a monotonic clock.
    pub now: u64,
}

/// The registry after one event.
pub open spec fn after_event(m: Map<Seq<char>, TopicView>, e: TopicEvent) -> Map<
    Seq<char>,
    TopicView,
> {
    topics_after_message(m, e.action, e.context, e.now)
}

/// `acts` holds a notification of `kind` about `topic`.
pub open spec fn has_action(acts: Set<ActionView>, kind: ActionKind, topic: Seq<char>) -> bool {
    exists|a: ActionView| #[trigger] acts.contains(a) && a.kind == kind && a.topic == topic
}

/// How many of the events emit a notification of `kind` about `topic`.
pub open spec fn count_emitted(
    m: Map<Seq<char>, TopicView>,
    events: Seq<TopicEvent>,
    kind: ActionKind,
    topic: Seq<char>,
) -> nat
    decreases events.len(),
{
    if events.len() == 0 {
        0
    } else {
        let e = events[0];
        (if has_action(actions_of_message(m, e.action, e.context), kind, topic) {
            1nat
        } else {
            0nat
        }) + count_emitted(after_event(m, e), events.drop_first(), kind, topic)
    }
}

/// The topic's subscriber count goes from zero to one, and it had a callback beforehand.
pub open spec fn rises_with_callback(
    before: Map<Seq<char>, TopicView>,
    after: Map<Seq<char>, TopicView>,
    topic: Seq<char>,
) -> bool {
    &&& before.contains_key(topic)
    &&& before[topic].count == 0
    &&& before[topic].callback.is_some()
    &&& after.contains_key(topic)
    &&& after[topic].count == 1
}

/// How many of the events take the topic's subscriber count from zero to one while it has a
/// callback.
pub open spec fn count_rises(
    m: Map<Seq<char>, TopicView>,
    events: Seq<TopicEvent>,
    topic: Seq<char>,
) -> nat
    decreases events.len(),
{
    if events.len() == 0 {
        0
    } else {
        let next = after_event(m, events[0]);
        (if rises_with_callback(m, next, topic) {
            1nat
        } else {
            0nat
        }) + count_rises(next, events.drop_first(), topic)
    }
}

/// The topic is present and has a callback.
pub open spec fn has_callback(m: Map<Seq<char>, TopicView>, topic: Seq<char>) -> bool {
    m.contains_key(topic) && m[topic].callback.is_some()
}

/// One event emits `START` about a topic exactly when it takes the topic's count from zero to
/// one while the topic has a callback.
pub proof fn lemma_start_iff_rise(m: Map<Seq<char>, TopicView>, e: TopicEvent, topic: Seq<char>)
    ensures
        has_action(actions_of_message(m, e.action, e.context), ActionKind::Start, topic)
            <==> rises_with_callback(m, after_event(m, e), topic),
{
    let acts = actions_of_message(m, e.action, e.context);
    let next = after_event(m, e);
    if e.action == PubSubAction::PubDisconnect {
        assert(!has_action(acts, ActionKind::Start, topic));
    } else {
        match emitted_action(m, e.action, e.context) {
            Some(a) => {
                assert(acts.contains(a));
                if has_action(acts, ActionKind::Start, topic) {
                    let b = choose|b: ActionView|
                        #[trigger] acts.contains(b) && b.kind == ActionKind::Start && b.topic
                            == topic;
                    assert(b == a);
                }
            },
            None => {
                assert(acts =~= Set::<ActionView>::empty());
            },
        }
    }
}

/// Over any sequence of events, the number of `START` notifications about a topic equals the
/// number of times its subscriber count goes from zero to one while it has a callback.
pub proof fn lemma_starts_match_rises(
    m: Map<Seq<char>, TopicView>,
    events: Seq<TopicEvent>,
    topic: Seq<char>,
)
    ensures
        count_emitted(m, events, ActionKind::Start, topic) == count_rises(m, events, topic),
    decreases events.len(),
{
    if events.len() > 0 {
        lemma_start_iff_rise(m, events[0], topic);
        lemma_starts_match_rises(after_event(m, events[0]), events.drop_first(), topic);
    }
}

/// One event never gives a callback to a topic that had none, and a `DELETE` about a topic
/// removes that topic, which had a callback.
pub proof fn lemma_delete_step(m: Map<Seq<char>, TopicView>, e: TopicEvent, topic: Seq<char>)
    ensures
        has_callback(after_event(m, e), topic) ==> has_callback(m, topic),
        has_action(actions_of_message(m, e.action, e.context), ActionKind::Delete, topic) ==> (
        has_callback(m, topic) && !after_event(m, e).contains_key(topic)),
{
    let acts = actions_of_message(m, e.action, e.context);
    if has_action(acts, ActionKind::Delete, topic) {
        let b = choose|b: ActionView|
            #[trigger] acts.contains(b) && b.kind == ActionKind::Delete && b.topic == topic;
        if e.action != PubSubAction::PubDisconnect {
            match emitted_action(m, e.action, e.context) {
                Some(a) => {
                    assert(b == a);
                },
                None => {
                    assert(acts =~= Set::<ActionView>::empty());
                },
            }
        }
    }
}

/// Over any sequence of events, at most one `DELETE` is emitted about a topic, and none about
/// a topic that is not present with a callback at the start.
pub proof fn lemma_delete_at_most_once(
    m: Map<Seq<char>, TopicView>,
    events: Seq<TopicEvent>,
    topic: Seq<char>,
)
    ensures
        count_emitted(m, events, ActionKind::Delete, topic) <= if has_callback(m, topic) {
            1nat
        } else {
            0nat
        },
    decreases events.len(),
{
    if events.len() > 0 {
        lemma_delete_step(m, events[0], topic);
        lemma_delete_at_most_once(after_event(m, events[0]), events.drop_first(), topic);
    }
}

/// Asking twice for a topic's deletion leaves the registry as asking once does.
pub proof fn lemma_delete_topic_idempotent(m: Map<Seq<char>, TopicView>, topic: Seq<char>)
    ensures
        marked_for_deletion(marked_for_deletion(m, topic), topic) == marked_for_deletion(m, topic),
{
    if m.contains_key(topic) {
        assert(marked_for_deletion(marked_for_deletion(m, topic), topic) =~= marked_for_deletion(
            m,
            topic,
        ));
    }
}

/// Creating a topic, asking for its deletion, and processing the `Delete` that the next sweep
/// asks for, gives back the registry as it was before the creation, and emits exactly one
/// `DELETE`, to the topic's callback (the cue to publish the deletion message on the broker).
pub proof fn lemma_create_delete_round_trip(
    m: Map<Seq<char>, TopicView>,
    topic: Seq<char>,
    publisher_id: Seq<char>,
    callback: Seq<char>,
    created_at: u64,
    swept_at: u64,
)
    requires
        !m.contains_key(topic),
    ensures
        ({
            let marked = marked_for_deletion(
                m.insert(topic, created_topic(publisher_id, callback, created_at)),
                topic,
            );
            &&& sweep_action(marked[topic], swept_at) == Some(PubSubAction::Delete)
            &&& next_topics(marked, PubSubAction::Delete, topic, swept_at) == m
            &&& actions_of_message(marked, PubSubAction::Delete, topic) == set![
                ActionView { kind: ActionKind::Delete, topic, uri: callback },
            ]
        }),
{
    let marked = marked_for_deletion(
        m.insert(topic, created_topic(publisher_id, callback, created_at)),
        topic,
    );
    assert(next_topics(marked, PubSubAction::Delete, topic, swept_at) =~= m);
}

/// A subscription to an unknown topic creates a placeholder with one subscriber and no
/// callback; an unsubscription then brings its count back to zero. Neither emits anything.
pub proof fn lemma_placeholder_cycle(
    m: Map<Seq<char>, TopicView>,
    topic: Seq<char>,
    subscribed_at: u64,
    unsubscribed_at: u64,
)
    requires
        !m.contains_key(topic),
    ensures
        ({
            let m1 = next_topics(m, PubSubAction::Subscribe, topic, subscribed_at);
            let m2 = next_topics(m1, PubSubAction::Unsubscribe, topic, unsubscribed_at);
            &&& m1[topic] == placeholder_topic(subscribed_at)
            &&& emitted_action(m, PubSubAction::Subscribe, topic).is_none()
            &&& m2.contains_key(topic)
            &&& m2[topic].count == 0
            &&& m2[topic].callback.is_none()
            &&& emitted_action(m1, PubSubAction::Unsubscribe, topic).is_none()
        }),
{
}

/// An unsubscription clamps the subscriber count at zero; of two unsubscriptions in a row, at
/// most one emits `STOP`, and none does on a topic that had no subscribers.
pub proof fn lemma_unsubscribe_clamps(
    m: Map<Seq<char>, TopicView>,
    topic: Seq<char>,
    first_at: u64,
    second_at: u64,
)
    requires
        m.contains_key(topic),
    ensures
        ({
            let m1 = next_topics(m, PubSubAction::Unsubscribe, topic, first_at);
            let m2 = next_topics(m1, PubSubAction::Unsubscribe, topic, second_at);
            &&& m1[topic].count == count_after_unsubscribe(m[topic].count)
            &&& m[topic].count == 0 ==> m1[topic].count == 0 && emitted_action(
                m,
                PubSubAction::Unsubscribe,
                topic,
            ).is_none()
            &&& !(emitted_action(m, PubSubAction::Unsubscribe, topic).is_some() && emitted_action(
                m1,
                PubSubAction::Unsubscribe,
                topic,
            ).is_some())
        }),
{
}

} // verus!
