use vstd::prelude::*;

use crate::kafka::error::{is_status_value, KafkaError};
use crate::kafka::json::{json_member, JsonValue};
use crate::kafka::message::{create_message, wants_reply, MessageType, ParsedMessage, SendMessage};

verus! {

/// What a handler hands back: a payload to reply with, or an acknowledgement
/// that asks for no reply.
#[derive(Debug)]
pub enum HandlerResult {
    Response(JsonValue),
    Acknowledge,
}

/// How dispatching one request ended: `None` when no handler is registered for
/// its uri, else what the handler returned.
pub type DispatchOutcome = Option<Result<HandlerResult, KafkaError>>;

/// Whether a reply is published for `request` after `outcome`: only where the
/// request carries a live destination and the handler did not just acknowledge.
pub open spec fn publishes(request: ParsedMessage, outcome: DispatchOutcome) -> bool {
    wants_reply(request) && !(outcome matches Some(Ok(HandlerResult::Acknowledge)))
}

/// `data` is `{ "data": payload }`.
pub open spec fn wraps(data: JsonValue, payload: JsonValue) -> bool {
    match data {
        JsonValue::Object(f) => f@.len() == 1 && f@[0].0@ == "data"@ && f@[0].1 == payload,
        _ => false,
    }
}

/// The payload a reply carries after `outcome`: the not-found status, the
/// handler's error as a status, or the handler's output wrapped under `data`.
pub open spec fn reply_payload(request: ParsedMessage, outcome: DispatchOutcome, data: JsonValue) -> bool {
    match outcome {
        None => is_status_value(data, "URI_NOT_FOUND"@, "Uri not found: "@ + request.uri@),
        Some(Err(e)) => is_status_value(data, e.code_spec(), e.text()),
        Some(Ok(HandlerResult::Response(p))) => wraps(data, p),
        Some(Ok(HandlerResult::Acknowledge)) => false,
    }
}

/// `reply` answers `request` on behalf of `source_id`: a RESPONSE to the
/// request's destination, with its message and transaction ids kept, and no
/// destination of its own.
pub open spec fn answers(request: ParsedMessage, source_id: String, reply: SendMessage) -> bool {
    match request.response_destination {
        Some(d) => {
            &&& reply.topic == d.topic
            &&& reply.message.uri == d.uri
            &&& reply.message.message_type == MessageType::Response
            &&& reply.message.source_id == Some(source_id)
            &&& reply.message.message_id == request.message_id
            &&& reply.message.transaction_id == request.transaction_id
            &&& reply.message.response_destination.is_none()
        },
        None => false,
    }
}

/// The reply to `request` carrying `data`, where the request wants one.
pub fn reply_with(request: &ParsedMessage, source_id: &String, data: JsonValue) -> (r: Option<SendMessage>)
    ensures
        r.is_some() == wants_reply(*request),
        match r {
            Some(s) => answers(*request, *source_id, s) && s.message.data == data,
            None => true,
        },
{
    if request.should_response() {
        match request.get_response_destination() {
            Some(dest) => Some(
                create_message(
                    Some(source_id.clone()),
                    request.message_id.clone(),
                    request.transaction_id.clone(),
                    dest.topic.clone(),
                    dest.uri.clone(),
                    data,
                    Some(MessageType::Response),
                    None,
                ),
            ),
            None => None,
        }
    } else {
        None
    }
}

/// The reply, if any, that dispatching `request` calls for after `outcome`.
pub fn reply_for(request: &ParsedMessage, source_id: &String, outcome: DispatchOutcome) -> (r: Option<SendMessage>)
    ensures
        r.is_some() == publishes(*request, outcome),
        match r {
            Some(s) => answers(*request, *source_id, s) && reply_payload(*request, outcome, s.message.data),
            None => true,
        },
{
    match outcome {
        None => {
            let e = KafkaError::UriNotFound(request.uri.clone());
            reply_with(request, source_id, e.to_response_value())
        },
        Some(Err(e)) => reply_with(request, source_id, e.to_response_value()),
        Some(Ok(HandlerResult::Response(payload))) => {
            let mut f: Vec<(String, JsonValue)> = Vec::new();
            f.push(json_member("data", payload));
            reply_with(request, source_id, JsonValue::Object(f))
        },
        Some(Ok(HandlerResult::Acknowledge)) => None,
    }
}

/// A request with a live destination whose handler returned a payload or
/// failed is answered by exactly one reply, with the request's transaction id.
pub proof fn lemma_handled_request_is_answered(request: ParsedMessage, source_id: String, outcome: DispatchOutcome, reply: Option<SendMessage>)
    requires
        wants_reply(request),
        outcome.is_some(),
        !(outcome matches Some(Ok(HandlerResult::Acknowledge))),
        reply.is_some() == publishes(request, outcome),
        reply matches Some(s) ==> answers(request, source_id, s),
    ensures
        reply matches Some(s) && s.message.transaction_id == request.transaction_id
            && s.message.message_type == MessageType::Response,
{
}

/// A request with a live destination and no registered handler is answered by
/// exactly one reply, whose status code is URI_NOT_FOUND.
pub proof fn lemma_unrouted_request_gets_not_found(request: ParsedMessage, source_id: String, reply: Option<SendMessage>)
    requires
        wants_reply(request),
        reply.is_some() == publishes(request, None),
        reply matches Some(s) ==> reply_payload(request, None, s.message.data),
    ensures
        reply matches Some(s) && is_status_value(s.message.data, "URI_NOT_FOUND"@, "Uri not found: "@ + request.uri@),
{
}

/// A request without a live destination is never answered, whatever the
/// handler did.
pub proof fn lemma_no_destination_no_reply(request: ParsedMessage, outcome: DispatchOutcome)
    requires
        !wants_reply(request),
    ensures
        !publishes(request, outcome),
{
}

/// A handler that acknowledges gets no reply published, even where the
/// request has a live destination.
pub proof fn lemma_acknowledge_publishes_nothing(request: ParsedMessage)
    ensures
        !publishes(request, Some(Ok(HandlerResult::Acknowledge))),
{
}

/// A destination with an empty topic or an empty uri counts as no destination:
/// no reply is published, whatever the handler did.
pub proof fn lemma_half_empty_destination_is_absent(request: ParsedMessage, outcome: DispatchOutcome)
    requires
        request.response_destination matches Some(d) && (d.topic@.len() == 0 || d.uri@.len() == 0),
    ensures
        !wants_reply(request),
        !publishes(request, outcome),
{
}

} // verus!
