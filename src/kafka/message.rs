use vstd::prelude::*;

use crate::kafka::json::{find_member, get_member, json_member, lemma_member_at, member, text_eq, JsonValue};

verus! {

/// The kind of an envelope, written on the wire as an upper-case token.
#[derive(Debug, Clone, Copy, PartialEq, Eq, Structural)]
pub enum MessageType {
    Request,
    Response,
    Message,
}

impl MessageType {
    pub open spec fn token_spec(self) -> Seq<char> {
        match self {
            MessageType::Request => "REQUEST"@,
            MessageType::Response => "RESPONSE"@,
            MessageType::Message => "MESSAGE"@,
        }
    }

    pub open spec fn from_token_spec(t: Seq<char>) -> Option<MessageType> {
        if t == "REQUEST"@ {
            Some(MessageType::Request)
        } else if t == "RESPONSE"@ {
            Some(MessageType::Response)
        } else if t == "MESSAGE"@ {
            Some(MessageType::Message)
        } else {
            None
        }
    }

    /// The wire token of this kind.
    pub fn token(&self) -> (r: &'static str)
        ensures
            r@ == self.token_spec(),
    {
        match self {
            MessageType::Request => "REQUEST",
            MessageType::Response => "RESPONSE",
            MessageType::Message => "MESSAGE",
        }
    }

    /// The kind a wire token names, if any.
    pub fn from_token(t: &str) -> (r: Option<MessageType>)
        ensures
            r == Self::from_token_spec(t@),
    {
        if text_eq(t, "REQUEST") {
            Some(MessageType::Request)
        } else if text_eq(t, "RESPONSE") {
            Some(MessageType::Response)
        } else if text_eq(t, "MESSAGE") {
            Some(MessageType::Message)
        } else {
            None
        }
    }
}

/// Every kind reads back from its own token.
pub proof fn lemma_token_round_trip(t: MessageType)
    ensures
        MessageType::from_token_spec(t.token_spec()) == Some(t),
{
    reveal_strlit("REQUEST");
    reveal_strlit("RESPONSE");
    reveal_strlit("MESSAGE");
    assert("REQUEST"@.len() != "RESPONSE"@.len());
    assert("REQUEST"@[0] != "MESSAGE"@[0]);
    assert("RESPONSE"@[0] != "MESSAGE"@[0]);
}

/// Where a reply to a request goes: a topic and the uri to address there.
#[derive(Debug, Clone)]
pub struct ResponseDestination {
    pub topic: String,
    pub uri: String,
}

impl ResponseDestination {
    /// A destination is live when both its topic and its uri are non-empty.
    pub open spec fn is_live(self) -> bool {
        self.topic@.len() > 0 && self.uri@.len() > 0
    }

    /// Whether a reply should be sent here.
    pub fn should_response(&self) -> (r: bool)
        ensures
            r == self.is_live(),
    {
        !self.topic.as_str().is_empty() && !self.uri.as_str().is_empty()
    }
}

/// An envelope: routing, correlation and payload of one broker message.
#[derive(Debug)]
pub struct ParsedMessage {
    pub message_type: MessageType,
    pub source_id: Option<String>,
    pub transaction_id: String,
    pub message_id: String,
    pub uri: String,
    pub response_destination: Option<ResponseDestination>,
    pub data: JsonValue,
}

/// An envelope with the topic it is published to.
#[derive(Debug)]
pub struct SendMessage {
    pub topic: String,
    pub message: ParsedMessage,
}

/// A reply is owed when the envelope carries a live destination.
pub open spec fn wants_reply(m: ParsedMessage) -> bool {
    match m.response_destination {
        Some(d) => d.is_live(),
        None => false,
    }
}

impl ParsedMessage {
    /// Whether the sender of this envelope expects a reply.
    pub fn should_response(&self) -> (r: bool)
        ensures
            r == wants_reply(*self),
    {
        match &self.response_destination {
            Some(d) => d.should_response(),
            None => false,
        }
    }

    /// The handler output a successful reply carries: the `data` member of its payload.
    pub fn get_data(&self) -> (r: Option<&JsonValue>)
        ensures
            match self.data {
                JsonValue::Object(f) => match r {
                    Some(v) => member(f@, "data"@) == Some(*v),
                    None => member(f@, "data"@) == None::<JsonValue>,
                },
                _ => r.is_none(),
            },
    {
        match &self.data {
            JsonValue::Object(f) => get_member(f, "data"),
            _ => None,
        }
    }

    /// The destination a reply would go to, if any.
    pub fn get_response_destination(&self) -> (r: Option<&ResponseDestination>)
        ensures
            match r {
                Some(d) => self.response_destination == Some(*d),
                None => self.response_destination.is_none(),
            },
    {
        match &self.response_destination {
            Some(d) => Some(d),
            None => None,
        }
    }
}

/// Builds an envelope addressed to `topic`; the kind defaults to MESSAGE.
pub fn create_message(
    source_id: Option<String>,
    message_id: String,
    transaction_id: String,
    topic: String,
    uri: String,
    data: JsonValue,
    message_type: Option<MessageType>,
    response_destination: Option<ResponseDestination>,
) -> (r: SendMessage)
    ensures
        r.topic == topic,
        r.message.message_type == match message_type {
            Some(t) => t,
            None => MessageType::Message,
        },
        r.message.source_id == source_id,
        r.message.message_id == message_id,
        r.message.transaction_id == transaction_id,
        r.message.uri == uri,
        r.message.data == data,
        r.message.response_destination == response_destination,
{
    let kind = match message_type {
        Some(t) => t,
        None => MessageType::Message,
    };
    SendMessage {
        topic,
        message: ParsedMessage {
            message_type: kind,
            source_id,
            message_id,
            transaction_id,
            uri,
            response_destination,
            data,
        },
    }
}

// ---- wire form ----

/// `v` is a JSON string whose text is `s`.
pub open spec fn is_text(v: JsonValue, s: Seq<char>) -> bool {
    match v {
        JsonValue::Str(t) => t@ == s,
        _ => false,
    }
}

/// `v` is how an optional string goes on the wire: null when absent.
pub open spec fn encodes_optional(v: JsonValue, s: Option<String>) -> bool {
    match s {
        Some(t) => v == JsonValue::Str(t),
        None => v == JsonValue::Null,
    }
}

/// `v` is the wire form of a destination: `{ "topic": .., "uri": .. }`, or null.
pub open spec fn encodes_destination(v: JsonValue, d: Option<ResponseDestination>) -> bool {
    match d {
        None => v == JsonValue::Null,
        Some(d) => match v {
            JsonValue::Object(fields) => {
                &&& fields@.len() == 2
                &&& fields@[0].0@ == "topic"@
                &&& fields@[0].1 == JsonValue::Str(d.topic)
                &&& fields@[1].0@ == "uri"@
                &&& fields@[1].1 == JsonValue::Str(d.uri)
            },
            _ => false,
        },
    }
}

/// `v` is the wire form of envelope `m`: an object with the camelCase members
/// messageType, sourceId, transactionId, messageId, uri, responseDestination, data.
pub open spec fn encodes(m: ParsedMessage, v: JsonValue) -> bool {
    match v {
        JsonValue::Object(fields) => {
            let f = fields@;
            &&& f.len() == 7
            &&& f[0].0@ == "messageType"@ && is_text(f[0].1, m.message_type.token_spec())
            &&& f[1].0@ == "sourceId"@ && encodes_optional(f[1].1, m.source_id)
            &&& f[2].0@ == "transactionId"@ && f[2].1 == JsonValue::Str(m.transaction_id)
            &&& f[3].0@ == "messageId"@ && f[3].1 == JsonValue::Str(m.message_id)
            &&& f[4].0@ == "uri"@ && f[4].1 == JsonValue::Str(m.uri)
            &&& f[5].0@ == "responseDestination"@ && encodes_destination(
                f[5].1,
                m.response_destination,
            )
            &&& f[6].0@ == "data"@ && f[6].1 == m.data
        },
        _ => false,
    }
}

/// A required string member.
pub open spec fn text_member(v: Option<JsonValue>) -> Option<String> {
    match v {
        Some(JsonValue::Str(s)) => Some(s),
        _ => None,
    }
}

/// An optional string member: absent or null reads as `None`; another kind fails.
pub open spec fn optional_text_member(v: Option<JsonValue>) -> Option<Option<String>> {
    match v {
        None => Some(None),
        Some(JsonValue::Null) => Some(None),
        Some(JsonValue::Str(s)) => Some(Some(s)),
        _ => None,
    }
}

/// The kind member: a string holding one of the three tokens.
pub open spec fn kind_member(v: Option<JsonValue>) -> Option<MessageType> {
    match v {
        Some(JsonValue::Str(s)) => MessageType::from_token_spec(s@),
        _ => None,
    }
}

/// The destination member: absent or null reads as `None`; an object needs
/// string members topic and uri; another kind fails.
pub open spec fn destination_member(v: Option<JsonValue>) -> Option<Option<ResponseDestination>> {
    match v {
        None => Some(None),
        Some(JsonValue::Null) => Some(None),
        Some(JsonValue::Object(fields)) => match (
            text_member(member(fields@, "topic"@)),
            text_member(member(fields@, "uri"@)),
        ) {
            (Some(topic), Some(uri)) => Some(Some(ResponseDestination { topic, uri })),
            _ => None,
        },
        _ => None,
    }
}

/// The envelope a JSON tree stands for, or `None` where it breaks the schema.
pub open spec fn decode(v: JsonValue) -> Option<ParsedMessage> {
    match v {
        JsonValue::Object(fields) => {
            let f = fields@;
            let kind = kind_member(member(f, "messageType"@));
            let source = optional_text_member(member(f, "sourceId"@));
            let tx = text_member(member(f, "transactionId"@));
            let mid = text_member(member(f, "messageId"@));
            let uri = text_member(member(f, "uri"@));
            let dest = destination_member(member(f, "responseDestination"@));
            let data = member(f, "data"@);
            if kind.is_some() && source.is_some() && tx.is_some() && mid.is_some() && uri.is_some()
                && dest.is_some() && data.is_some() {
                Some(
                    ParsedMessage {
                        message_type: kind.unwrap(),
                        source_id: source.unwrap(),
                        transaction_id: tx.unwrap(),
                        message_id: mid.unwrap(),
                        uri: uri.unwrap(),
                        response_destination: dest.unwrap(),
                        data: data.unwrap(),
                    },
                )
            } else {
                None
            }
        },
        _ => None,
    }
}

/// Encoding an envelope and decoding the result gives back the same envelope,
/// for every envelope.
pub proof fn lemma_envelope_round_trip(m: ParsedMessage, v: JsonValue)
    requires
        encodes(m, v),
    ensures
        decode(v) == Some(m),
{
    reveal_strlit("messageType");
    reveal_strlit("sourceId");
    reveal_strlit("transactionId");
    reveal_strlit("messageId");
    reveal_strlit("uri");
    reveal_strlit("responseDestination");
    reveal_strlit("data");
    reveal_strlit("topic");
    if let JsonValue::Object(fields) = v {
        let f = fields@;
        assert(f[0].0@.len() == 11 && f[1].0@.len() == 8 && f[2].0@.len() == 13);
        assert(f[3].0@.len() == 9 && f[4].0@.len() == 3 && f[5].0@.len() == 19);
        assert(f[6].0@.len() == 4);
        lemma_member_at(f, "messageType"@, 0);
        lemma_member_at(f, "sourceId"@, 1);
        lemma_member_at(f, "transactionId"@, 2);
        lemma_member_at(f, "messageId"@, 3);
        lemma_member_at(f, "uri"@, 4);
        lemma_member_at(f, "responseDestination"@, 5);
        lemma_member_at(f, "data"@, 6);
        lemma_token_round_trip(m.message_type);
        if let Some(d) = m.response_destination {
            if let JsonValue::Object(inner) = f[5].1 {
                lemma_member_at(inner@, "topic"@, 0);
                lemma_member_at(inner@, "uri"@, 1);
            }
        }
    }
}

fn read_text(fields: &Vec<(String, JsonValue)>, key: &str) -> (r: Option<String>)
    ensures
        r == text_member(member(fields@, key@)),
{
    match get_member(fields, key) {
        Some(JsonValue::Str(s)) => Some(s.clone()),
        _ => None,
    }
}

fn read_optional_text(fields: &Vec<(String, JsonValue)>, key: &str) -> (r: Option<Option<String>>)
    ensures
        r == optional_text_member(member(fields@, key@)),
{
    match get_member(fields, key) {
        None => Some(None),
        Some(JsonValue::Null) => Some(None),
        Some(JsonValue::Str(s)) => Some(Some(s.clone())),
        _ => None,
    }
}

fn read_kind(fields: &Vec<(String, JsonValue)>) -> (r: Option<MessageType>)
    ensures
        r == kind_member(member(fields@, "messageType"@)),
{
    match get_member(fields, "messageType") {
        Some(JsonValue::Str(s)) => MessageType::from_token(s.as_str()),
        _ => None,
    }
}

fn read_destination(fields: &Vec<(String, JsonValue)>) -> (r: Option<Option<ResponseDestination>>)
    ensures
        r == destination_member(member(fields@, "responseDestination"@)),
{
    match get_member(fields, "responseDestination") {
        None => Some(None),
        Some(JsonValue::Null) => Some(None),
        Some(JsonValue::Object(inner)) => {
            let topic = read_text(inner, "topic");
            let uri = read_text(inner, "uri");
            match (topic, uri) {
                (Some(topic), Some(uri)) => Some(Some(ResponseDestination { topic, uri })),
                _ => None,
            }
        },
        _ => None,
    }
}

impl ParsedMessage {
    /// Reads an envelope out of its JSON tree; `None` where the tree breaks the schema.
    pub fn from_json(v: JsonValue) -> (r: Option<ParsedMessage>)
        ensures
            r == decode(v),
    {
        match v {
            JsonValue::Object(mut fields) => {
                let ghost f = fields@;
                let kind = read_kind(&fields);
                let source = read_optional_text(&fields, "sourceId");
                let tx = read_text(&fields, "transactionId");
                let mid = read_text(&fields, "messageId");
                let uri = read_text(&fields, "uri");
                let dest = read_destination(&fields);
                let data_at = find_member(&fields, "data");
                match (kind, source, tx, mid, uri, dest, data_at) {
                    (Some(kind), Some(source), Some(tx), Some(mid), Some(uri), Some(dest), Some(i)) => {
                        let (_, data) = fields.remove(i);
                        proof {
                            lemma_member_at(f, "data"@, i as int);
                        }
                        Some(
                            ParsedMessage {
                                message_type: kind,
                                source_id: source,
                                transaction_id: tx,
                                message_id: mid,
                                uri,
                                response_destination: dest,
                                data,
                            },
                        )
                    },
                    _ => None,
                }
            },
            _ => None,
        }
    }

    /// The JSON tree of this envelope, members in schema order.
    pub fn into_json(self) -> (r: JsonValue)
        ensures
            encodes(self, r),
    {
        let ghost m = self;
        let mut fields: Vec<(String, JsonValue)> = Vec::new();
        fields.push(json_member("messageType", JsonValue::Str(self.message_type.token().to_owned())));
        let source = match self.source_id {
            Some(s) => JsonValue::Str(s),
            None => JsonValue::Null,
        };
        fields.push(json_member("sourceId", source));
        fields.push(json_member("transactionId", JsonValue::Str(self.transaction_id)));
        fields.push(json_member("messageId", JsonValue::Str(self.message_id)));
        fields.push(json_member("uri", JsonValue::Str(self.uri)));
        let dest = match self.response_destination {
            Some(d) => {
                let mut inner: Vec<(String, JsonValue)> = Vec::new();
                inner.push(json_member("topic", JsonValue::Str(d.topic)));
                inner.push(json_member("uri", JsonValue::Str(d.uri)));
                JsonValue::Object(inner)
            },
            None => JsonValue::Null,
        };
        fields.push(json_member("responseDestination", dest));
        fields.push(json_member("data", self.data));
        JsonValue::Object(fields)
    }
}

} // verus!
