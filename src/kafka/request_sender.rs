use vstd::prelude::*;
use vstd::string::StringExecFns;

use crate::kafka::error::KafkaError;
use crate::kafka::extensions::{expired_spec, latency_expired};
use crate::kafka::ids::random_uuid;
use crate::kafka::json::JsonValue;
use crate::kafka::message::{create_message, MessageType, ParsedMessage, ResponseDestination, SendMessage};
use crate::kafka::table::KeyedTable;

verus! {

/// The await deadline of a request unless one is given, in seconds.
pub const DEFAULT_TIMEOUT_SECS: i64 = 600;

/// The uri a reply is addressed to on the reply topic.
pub const REPLY_URI: &'static str = "REQUEST_RESPONSE";

/// The parameters of one request.
#[derive(Debug)]
pub struct RequestAsyncParams {
    pub topic: String,
    pub uri: String,
    pub transaction_id: Option<String>,
    pub message_id: String,
    pub data: JsonValue,
    pub timeout_secs: Option<i64>,
}

impl RequestAsyncParams {
    /// Parameters with no transaction id or timeout; an absent message id is empty.
    pub fn new(topic: String, uri: String, message_id: Option<String>, data: JsonValue) -> (r: Self)
        ensures
            r.topic == topic,
            r.uri == uri,
            r.transaction_id.is_none(),
            match message_id {
                Some(m) => r.message_id == m,
                None => r.message_id@.len() == 0,
            },
            r.data == data,
            r.timeout_secs.is_none(),
    {
        let message_id = match message_id {
            Some(m) => m,
            None => String::new(),
        };
        RequestAsyncParams { topic, uri, transaction_id: None, message_id, data, timeout_secs: None }
    }

    pub fn with_transaction_id(self, transaction_id: String) -> (r: Self)
        ensures
            r == (RequestAsyncParams { transaction_id: Some(transaction_id), ..self }),
    {
        RequestAsyncParams { transaction_id: Some(transaction_id), ..self }
    }

    pub fn with_message_id(self, message_id: String) -> (r: Self)
        ensures
            r == (RequestAsyncParams { message_id, ..self }),
    {
        RequestAsyncParams { message_id, ..self }
    }

    pub fn with_timeout_secs(self, timeout_secs: i64) -> (r: Self)
        ensures
            r == (RequestAsyncParams { timeout_secs: Some(timeout_secs), ..self }),
    {
        RequestAsyncParams { timeout_secs: Some(timeout_secs), ..self }
    }

    /// The deadline of this request: its own, else the default.
    pub fn timeout_or_default(&self) -> (r: i64)
        ensures
            r == match self.timeout_secs {
                Some(t) => t,
                None => DEFAULT_TIMEOUT_SECS,
            },
    {
        match self.timeout_secs {
            Some(t) => t,
            None => DEFAULT_TIMEOUT_SECS,
        }
    }
}

/// The transaction id of a request: the caller's, else a freshly minted one.
pub fn transaction_id_or_new(given: Option<String>) -> (r: String)
    ensures
        match given {
            Some(t) => r == t,
            None => r@.len() == 36,
        },
{
    match given {
        Some(t) => t,
        None => random_uuid(),
    }
}

/// The private reply topic of a sender: `<clusterId>.<suffix>`.
pub fn reply_topic_for(cluster_id: &str, suffix: &str) -> (r: String)
    ensures
        r@ == cluster_id@ + "."@ + suffix@,
{
    let mut t = cluster_id.to_owned();
    t.append(".");
    t.append(suffix);
    t
}

/// A reply topic for a new sender, with a random suffix.
pub fn new_reply_topic(cluster_id: &str) -> (r: String)
    ensures
        exists|suffix: Seq<char>| suffix.len() == 36 && r@ == cluster_id@ + "."@ + suffix,
{
    let suffix = random_uuid();
    reply_topic_for(cluster_id, suffix.as_str())
}

/// The REQUEST envelope for a call: sent by `cluster_id`, asking for the reply
/// on `reply_topic` at the uri REQUEST_RESPONSE.
pub fn request_message(
    cluster_id: &String,
    reply_topic: &String,
    topic: String,
    uri: String,
    transaction_id: String,
    message_id: String,
    data: JsonValue,
) -> (r: SendMessage)
    ensures
        r.topic == topic,
        r.message.message_type == MessageType::Request,
        r.message.source_id == Some(*cluster_id),
        r.message.uri == uri,
        r.message.transaction_id == transaction_id,
        r.message.message_id == message_id,
        r.message.data == data,
        match r.message.response_destination {
            Some(d) => d.topic == *reply_topic && d.uri@ == REPLY_URI@,
            None => false,
        },
{
    create_message(
        Some(cluster_id.clone()),
        message_id,
        transaction_id,
        topic,
        uri,
        data,
        Some(MessageType::Request),
        Some(ResponseDestination { topic: reply_topic.clone(), uri: REPLY_URI.to_owned() }),
    )
}

/// A request waiting for its reply: where to hand the reply, and when it was sent.
pub struct PendingRequest<S> {
    pub sender: S,
    pub created_at_ms: u64,
}

impl<S> PendingRequest<S> {
    pub fn new(sender: S, created_at_ms: u64) -> (r: Self)
        ensures
            r.sender == sender,
            r.created_at_ms == created_at_ms,
    {
        PendingRequest { sender, created_at_ms }
    }
}

/// What becomes of a message read from the reply topic.
pub enum ReplyRoute<S> {
    /// Older than the default timeout: dropped.
    Stale,
    /// No request waits under its transaction id: dropped.
    Unmatched(ParsedMessage),
    /// Hand the reply to the request that waited for it.
    Deliver(PendingRequest<S>, ParsedMessage),
}

/// How waiting for a reply ended.
pub enum WaitOutcome {
    Replied(ParsedMessage),
    TimedOut,
    Failed(KafkaError),
}

/// The timeout error of request `transaction_id`: `request <id> timeout`.
pub open spec fn timeout_text(transaction_id: Seq<char>) -> Seq<char> {
    "request "@ + transaction_id + " timeout"@
}

/// The result a settled request hands its caller.
pub open spec fn settled_result(transaction_id: Seq<char>, outcome: WaitOutcome, r: Result<ParsedMessage, KafkaError>) -> bool {
    match outcome {
        WaitOutcome::Replied(m) => r == Ok::<ParsedMessage, KafkaError>(m),
        WaitOutcome::TimedOut => match r {
            Err(KafkaError::TimeoutError(s)) => s@ == timeout_text(transaction_id),
            _ => false,
        },
        WaitOutcome::Failed(e) => r == Err::<ParsedMessage, KafkaError>(e),
    }
}

/// The requests that wait for replies, at most one per transaction id.
pub struct PendingRequests<S> {
    table: KeyedTable<PendingRequest<S>>,
}

impl<S> PendingRequests<S> {
    /// The waiting requests, by transaction id.
    pub closed spec fn view(&self) -> Map<Seq<char>, PendingRequest<S>> {
        self.table@
    }

    pub closed spec fn wf(&self) -> bool {
        self.table.wf()
    }

    pub fn new() -> (r: Self)
        ensures
            r.wf(),
            r@ == Map::<Seq<char>, PendingRequest<S>>::empty(),
    {
        PendingRequests { table: KeyedTable::new() }
    }

    pub fn len(&self) -> (r: usize)
        requires
            self.wf(),
        ensures
            r == self@.len(),
    {
        self.table.len()
    }

    /// Whether a request waits under `transaction_id`.
    pub fn contains(&self, transaction_id: &str) -> (r: bool)
        requires
            self.wf(),
        ensures
            r == self@.contains_key(transaction_id@),
    {
        self.table.contains(transaction_id)
    }

    /// Records a request before it is published. A second request under the same
    /// id replaces the first, whose caller then hears nothing.
    pub fn track(&mut self, transaction_id: String, request: PendingRequest<S>)
        requires
            old(self).wf(),
        ensures
            final(self).wf(),
            final(self)@ == old(self)@.insert(transaction_id@, request),
    {
        self.table.insert(transaction_id, request);
    }

    /// Routes a message read from the reply topic. A stale message and one that
    /// no request waits for leave the table as it was; a match takes its request out.
    pub fn accept_reply(&mut self, reply: ParsedMessage, latency_ms: i64, default_timeout_secs: i64) -> (r: ReplyRoute<S>)
        requires
            old(self).wf(),
        ensures
            final(self).wf(),
            expired_spec(latency_ms as int, default_timeout_secs as int) ==> {
                &&& r matches ReplyRoute::Stale
                &&& final(self)@ == old(self)@
            },
            !expired_spec(latency_ms as int, default_timeout_secs as int)
                && !old(self)@.contains_key(reply.transaction_id@) ==> {
                &&& r == ReplyRoute::<S>::Unmatched(reply)
                &&& final(self)@ == old(self)@
            },
            !expired_spec(latency_ms as int, default_timeout_secs as int)
                && old(self)@.contains_key(reply.transaction_id@) ==> {
                &&& r == ReplyRoute::Deliver(old(self)@[reply.transaction_id@], reply)
                &&& final(self)@ == old(self)@.remove(reply.transaction_id@)
            },
    {
        if latency_expired(latency_ms, default_timeout_secs) {
            return ReplyRoute::Stale;
        }
        match self.table.remove(reply.transaction_id.as_str()) {
            Some(request) => ReplyRoute::Deliver(request, reply),
            None => ReplyRoute::Unmatched(reply),
        }
    }

    /// Ends the wait of request `transaction_id`: whichever way it ended, its
    /// entry leaves the table, and the caller gets the reply or the error.
    pub fn settle(&mut self, transaction_id: &str, outcome: WaitOutcome) -> (r: Result<ParsedMessage, KafkaError>)
        requires
            old(self).wf(),
        ensures
            final(self).wf(),
            final(self)@ == old(self)@.remove(transaction_id@),
            !final(self)@.contains_key(transaction_id@),
            settled_result(transaction_id@, outcome, r),
    {
        let _ = self.table.remove(transaction_id);
        match outcome {
            WaitOutcome::Replied(m) => Ok(m),
            WaitOutcome::TimedOut => {
                let mut s = "request ".to_owned();
                s.append(transaction_id);
                s.append(" timeout");
                Err(KafkaError::TimeoutError(s))
            },
            WaitOutcome::Failed(e) => Err(e),
        }
    }
}

/// Every wait that ends in a reply or a timeout yields exactly one of a
/// RESPONSE envelope or a timeout error, and leaves no entry for its id.
pub proof fn lemma_wait_settles<S>(
    transaction_id: Seq<char>,
    outcome: WaitOutcome,
    r: Result<ParsedMessage, KafkaError>,
    table_after: Map<Seq<char>, PendingRequest<S>>,
    table_before: Map<Seq<char>, PendingRequest<S>>,
)
    requires
        !(outcome matches WaitOutcome::Failed(_)),
        settled_result(transaction_id, outcome, r),
        table_after == table_before.remove(transaction_id),
    ensures
        (r is Ok) != (r matches Err(KafkaError::TimeoutError(_))),
        !table_after.contains_key(transaction_id),
{
}

/// A reply whose transaction id no request waits for is dropped and changes nothing.
pub proof fn lemma_unmatched_reply_changes_nothing<S>(
    table_before: Map<Seq<char>, PendingRequest<S>>,
    table_after: Map<Seq<char>, PendingRequest<S>>,
    reply: ParsedMessage,
    latency_ms: i64,
    default_timeout_secs: i64,
    r: ReplyRoute<S>,
)
    requires
        !table_before.contains_key(reply.transaction_id@),
        expired_spec(latency_ms as int, default_timeout_secs as int) ==> (r matches ReplyRoute::Stale
            && table_after == table_before),
        !expired_spec(latency_ms as int, default_timeout_secs as int) && !table_before.contains_key(
            reply.transaction_id@,
        ) ==> (r == ReplyRoute::<S>::Unmatched(reply) && table_after == table_before),
    ensures
        table_after == table_before,
        !(r matches ReplyRoute::Deliver(_, _)),
{
}

/// A reply read later than the default timeout is dropped, whatever it answers.
pub proof fn lemma_late_reply_dropped<S>(
    table_before: Map<Seq<char>, PendingRequest<S>>,
    table_after: Map<Seq<char>, PendingRequest<S>>,
    latency_ms: i64,
    default_timeout_secs: i64,
    r: ReplyRoute<S>,
)
    requires
        latency_ms > 0,
        latency_ms > default_timeout_secs * 1000,
        expired_spec(latency_ms as int, default_timeout_secs as int) ==> (r matches ReplyRoute::Stale
            && table_after == table_before),
    ensures
        r matches ReplyRoute::Stale,
        table_after == table_before,
{
}

} // verus!
