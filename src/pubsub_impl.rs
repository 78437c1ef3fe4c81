//! The publish/subscribe service's request surface.
//!
//! Publishers create a dynamic topic, and later ask for its deletion, through [`PubSubImpl`].
//! Both operations are thin layers over the [`TopicManager`] that owns the topics.
use vstd::prelude::*;

use crate::topic_manager::{created_topic, is_uuid_v4_text, marked_for_deletion, TopicManager};

verus! {

/// A publisher's request for a new topic.
pub struct CreateTopicRequest {
    /// Id of the publisher that will own the topic.
    pub publisher_id: String,
    /// Uri at which the publisher takes lifecycle notifications about its topics.
    pub management_callback: String,
    /// Protocol of the management callback; informational only.
    pub management_protocol: String,
}

/// The answer to a [`CreateTopicRequest`].
pub struct CreateTopicResponse {
    /// The newly allocated topic.
    pub generated_topic: String,
    /// Uri of the messaging broker to publish on.
    pub broker_uri: String,
    /// Protocol of the messaging broker.
    pub broker_protocol: String,
}

/// A publisher's request to delete one of its topics.
pub struct DeleteTopicRequest {
    /// The topic to delete.
    pub topic: String,
}

/// The answer to a [`DeleteTopicRequest`].
pub struct DeleteTopicResponse {}

/// Why a request was refused.
#[derive(Debug, Clone, Copy, PartialEq, Eq, Structural)]
pub enum PubSubError {
    /// The request names no publisher.
    MissingPublisherId,
    /// The request gives no management callback.
    MissingManagementCallback,
}

impl PubSubError {
    /// The error's message.
    pub fn to_string(&self) -> (r: String)
        ensures
            r@ == match self {
                PubSubError::MissingPublisherId => "publisher_id is required"@,
                PubSubError::MissingManagementCallback => "management_callback is required"@,
            },
    {
        match self {
            PubSubError::MissingPublisherId => "publisher_id is required".to_string(),
            PubSubError::MissingManagementCallback => "management_callback is required".to_string(),
        }
    }
}

/// Base structure for the pub sub service.
pub struct PubSubImpl {
    /// The uri of the messaging broker.
    pub uri: String,
    /// The messaging protocol used by the messaging broker.
    pub protocol: String,
}

impl PubSubImpl {
    /// Creates a dynamic topic for the requesting publisher, with no subscribers and the
    /// request's callback, and returns it with the broker's uri and protocol.
    ///
    /// A request without a publisher id or without a management callback (an empty string,
    /// which is how a field left out of the request arrives) is refused and changes nothing.
    /// The management protocol is informational and never refused. Any other request
    /// succeeds: the topic's id is one that no present topic has, and a version 4 UUID
    /// whenever no present topic has an id of a UUID's length (see
    /// [`TopicManager::create_topic`]).
    pub fn create_topic(
        &self,
        manager: &mut TopicManager,
        request: CreateTopicRequest,
        now: u64,
    ) -> (r: Result<CreateTopicResponse, PubSubError>)
        requires
            old(manager).wf(),
        ensures
            final(manager).wf(),
            request.publisher_id@.len() == 0 ==> r == Err::<CreateTopicResponse, PubSubError>(
                PubSubError::MissingPublisherId,
            ) && final(manager)@ == old(manager)@,
            request.publisher_id@.len() > 0 && request.management_callback@.len() == 0 ==> r
                == Err::<CreateTopicResponse, PubSubError>(PubSubError::MissingManagementCallback)
                && final(manager)@ == old(manager)@,
            request.publisher_id@.len() > 0 && request.management_callback@.len() > 0 ==> {
                &&& r is Ok
                &&& !old(manager)@.contains_key(r->Ok_0.generated_topic@)
                &&& final(manager)@ == old(manager)@.insert(
                    r->Ok_0.generated_topic@,
                    created_topic(request.publisher_id@, request.management_callback@, now),
                )
                &&& r->Ok_0.broker_uri@ == self.uri@
                &&& r->Ok_0.broker_protocol@ == self.protocol@
                &&& (forall|k: Seq<char>| #[trigger] old(manager)@.contains_key(k) ==> k.len() != 36)
                    ==> is_uuid_v4_text(r->Ok_0.generated_topic@)
            },
    {
        if request.publisher_id.as_str().is_empty() {
            return Err(PubSubError::MissingPublisherId);
        }
        if request.management_callback.as_str().is_empty() {
            return Err(PubSubError::MissingManagementCallback);
        }
        let generated_topic = manager.create_topic(
            request.publisher_id,
            request.management_callback,
            now,
        );
        Ok(
            CreateTopicResponse {
                generated_topic,
                broker_uri: self.uri.clone(),
                broker_protocol: self.protocol.clone(),
            },
        )
    }

    /// Marks the requested topic for deletion; the manager's next cleanup sweep removes it.
    /// Deleting a topic that is missing, or already marked, changes nothing.
    pub fn delete_topic(&self, manager: &mut TopicManager, request: DeleteTopicRequest) -> (r:
        DeleteTopicResponse)
        requires
            old(manager).wf(),
        ensures
            final(manager).wf(),
            final(manager)@ == marked_for_deletion(old(manager)@, request.topic@),
    {
        manager.delete_topic(&request.topic);
        DeleteTopicResponse {  }
    }
}

} // verus!
