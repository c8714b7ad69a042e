use vstd::prelude::*;
use vstd::string::StringExecFns;

use crate::kafka::error_codes;
use crate::kafka::json::{json_member, JsonValue};

verus! {

/// The status block of an error reply: a wire code and a one-line message.
#[derive(Debug)]
pub struct Status {
    pub code: String,
    pub message: String,
    pub data: Option<JsonValue>,
}

/// A reply payload: a status block, a data block, or both.
#[derive(Debug)]
pub struct Response {
    pub status: Option<Status>,
    pub data: Option<JsonValue>,
}

/// `r` carries only a status with `code` and `message`, and no data anywhere.
pub open spec fn is_status_response(r: Response, code: Seq<char>, message: Seq<char>) -> bool {
    &&& r.data.is_none()
    &&& match r.status {
        Some(s) => s.code@ == code && s.message@ == message && s.data.is_none(),
        None => false,
    }
}

/// `v` is the wire form of an error reply:
/// `{ "status": { "code": code, "message": message, "data": null }, "data": null }`.
pub open spec fn is_status_value(v: JsonValue, code: Seq<char>, message: Seq<char>) -> bool {
    match v {
        JsonValue::Object(fields) => {
            &&& fields@.len() == 2
            &&& fields@[0].0@ == "status"@
            &&& fields@[1].0@ == "data"@
            &&& fields@[1].1 == JsonValue::Null
            &&& match fields@[0].1 {
                JsonValue::Object(st) => {
                    &&& st@.len() == 3
                    &&& st@[0].0@ == "code"@
                    &&& st@[1].0@ == "message"@
                    &&& st@[2].0@ == "data"@
                    &&& st@[2].1 == JsonValue::Null
                    &&& match (st@[0].1, st@[1].1) {
                        (JsonValue::Str(c), JsonValue::Str(m)) => c@ == code && m@ == message,
                        _ => false,
                    }
                },
                _ => false,
            }
        },
        _ => false,
    }
}

/// `v` is the wire form of status `st`: `{ "code": .., "message": .., "data": .. }`,
/// absent data as null.
pub open spec fn encodes_status(st: Status, v: JsonValue) -> bool {
    match v {
        JsonValue::Object(f) => {
            &&& f@.len() == 3
            &&& f@[0].0@ == "code"@ && f@[0].1 == JsonValue::Str(st.code)
            &&& f@[1].0@ == "message"@ && f@[1].1 == JsonValue::Str(st.message)
            &&& f@[2].0@ == "data"@ && f@[2].1 == match st.data {
                Some(x) => x,
                None => JsonValue::Null,
            }
        },
        _ => false,
    }
}

fn joined(prefix: &str, detail: &String) -> (r: String)
    ensures
        r@ == prefix@ + detail@,
{
    let mut s = prefix.to_owned();
    s.append(detail.as_str());
    s
}

fn optional_json(v: Option<JsonValue>) -> (r: JsonValue)
    ensures
        r == match v {
            Some(x) => x,
            None => JsonValue::Null,
        },
{
    match v {
        Some(x) => x,
        None => JsonValue::Null,
    }
}

fn status_value(code: &str, message: String) -> (r: JsonValue)
    ensures
        is_status_value(r, code@, message@),
{
    let mut st: Vec<(String, JsonValue)> = Vec::new();
    st.push(json_member("code", JsonValue::Str(code.to_owned())));
    st.push(json_member("message", JsonValue::Str(message)));
    st.push(json_member("data", JsonValue::Null));
    let mut fields: Vec<(String, JsonValue)> = Vec::new();
    fields.push(json_member("status", JsonValue::Object(st)));
    fields.push(json_member("data", JsonValue::Null));
    JsonValue::Object(fields)
}

impl Status {
    /// The wire form: `{ "code": .., "message": .., "data": .. }`, absent data as null.
    pub fn into_json(self) -> (r: JsonValue)
        ensures
            encodes_status(self, r),
    {
        let mut f: Vec<(String, JsonValue)> = Vec::new();
        f.push(json_member("code", JsonValue::Str(self.code)));
        f.push(json_member("message", JsonValue::Str(self.message)));
        f.push(json_member("data", optional_json(self.data)));
        JsonValue::Object(f)
    }
}

impl Response {
    /// The wire form: `{ "status": .., "data": .. }`, absent parts as null.
    pub fn into_json(self) -> (r: JsonValue)
        ensures
            match r {
                JsonValue::Object(f) => {
                    &&& f@.len() == 2
                    &&& f@[0].0@ == "status"@
                    &&& match self.status {
                        Some(st) => encodes_status(st, f@[0].1),
                        None => f@[0].1 == JsonValue::Null,
                    }
                    &&& f@[1].0@ == "data"@ && f@[1].1 == match self.data {
                        Some(x) => x,
                        None => JsonValue::Null,
                    }
                },
                _ => false,
            },
    {
        let status = match self.status {
            Some(s) => s.into_json(),
            None => JsonValue::Null,
        };
        let mut f: Vec<(String, JsonValue)> = Vec::new();
        f.push(json_member("status", status));
        f.push(json_member("data", optional_json(self.data)));
        JsonValue::Object(f)
    }
}

/// The errors of the messaging layer; each maps to one wire code.
#[derive(Debug, Clone)]
pub enum KafkaError {
    InternalServerError(String),
    UriNotFound(String),
    SerializationError(String),
    ConnectionError(String),
    TimeoutError(String),
    ConfigurationError(String),
}

impl KafkaError {
    pub open spec fn detail(self) -> Seq<char> {
        match self {
            KafkaError::InternalServerError(s) => s@,
            KafkaError::UriNotFound(s) => s@,
            KafkaError::SerializationError(s) => s@,
            KafkaError::ConnectionError(s) => s@,
            KafkaError::TimeoutError(s) => s@,
            KafkaError::ConfigurationError(s) => s@,
        }
    }

    pub open spec fn prefix(self) -> Seq<char> {
        match self {
            KafkaError::InternalServerError(_) => "Internal Server Error: "@,
            KafkaError::UriNotFound(_) => "Uri not found: "@,
            KafkaError::SerializationError(_) => "Serialization Error: "@,
            KafkaError::ConnectionError(_) => "Connection Error: "@,
            KafkaError::TimeoutError(_) => "Timeout Error: "@,
            KafkaError::ConfigurationError(_) => "Configuration Error: "@,
        }
    }

    /// The human-readable one-liner: the variant's prefix, then its detail.
    pub open spec fn text(self) -> Seq<char> {
        self.prefix() + self.detail()
    }

    /// The wire code of each variant.
    pub open spec fn code_spec(self) -> Seq<char> {
        match self {
            KafkaError::InternalServerError(_) => "INTERNAL_SERVER_ERROR"@,
            KafkaError::UriNotFound(_) => "URI_NOT_FOUND"@,
            KafkaError::SerializationError(_) => "VALUE_INVALID"@,
            KafkaError::ConnectionError(_) => "TIMEOUT_ERROR"@,
            KafkaError::TimeoutError(_) => "TIMEOUT_ERROR"@,
            KafkaError::ConfigurationError(_) => "INVALID_PARAMETER"@,
        }
    }

    /// The wire code of this error.
    pub fn code(&self) -> (r: &'static str)
        ensures
            r@ == self.code_spec(),
    {
        match self {
            KafkaError::InternalServerError(_) => error_codes::INTERNAL_SERVER_ERROR,
            KafkaError::UriNotFound(_) => error_codes::URI_NOT_FOUND,
            KafkaError::SerializationError(_) => error_codes::VALUE_INVALID,
            KafkaError::ConnectionError(_) => error_codes::TIMEOUT_ERROR,
            KafkaError::TimeoutError(_) => error_codes::TIMEOUT_ERROR,
            KafkaError::ConfigurationError(_) => error_codes::INVALID_PARAMETER,
        }
    }

    /// The message of this error, e.g. `Timeout Error: request 7 timeout`.
    pub fn to_string(&self) -> (r: String)
        ensures
            r@ == self.text(),
    {
        match self {
            KafkaError::InternalServerError(s) => joined("Internal Server Error: ", s),
            KafkaError::UriNotFound(s) => joined("Uri not found: ", s),
            KafkaError::SerializationError(s) => joined("Serialization Error: ", s),
            KafkaError::ConnectionError(s) => joined("Connection Error: ", s),
            KafkaError::TimeoutError(s) => joined("Timeout Error: ", s),
            KafkaError::ConfigurationError(s) => joined("Configuration Error: ", s),
        }
    }

    /// The reply payload for this error: its code and message, no data.
    pub fn to_response(&self) -> (r: Response)
        ensures
            is_status_response(r, self.code_spec(), self.text()),
    {
        Response {
            status: Some(Status { code: self.code().to_owned(), message: self.to_string(), data: None }),
            data: None,
        }
    }

    /// The wire form of the reply payload for this error.
    pub fn to_response_value(&self) -> (r: JsonValue)
        ensures
            is_status_value(r, self.code_spec(), self.text()),
    {
        status_value(self.code(), self.to_string())
    }
}

/// The errors a route lookup can report.
#[derive(Debug, Clone)]
pub enum Error {
    InternalServerError(String),
    UriNotFound(String),
}

impl Error {
    pub open spec fn text(self) -> Seq<char> {
        match self {
            Error::InternalServerError(s) => "Internal Server Error: "@ + s@,
            Error::UriNotFound(s) => "Uri not found: "@ + s@,
        }
    }

    pub open spec fn code_spec(self) -> Seq<char> {
        match self {
            Error::InternalServerError(_) => "INTERNAL_SERVER_ERROR"@,
            Error::UriNotFound(_) => "URI_NOT_FOUND"@,
        }
    }

    /// The message of this error.
    pub fn to_string(&self) -> (r: String)
        ensures
            r@ == self.text(),
    {
        match self {
            Error::InternalServerError(s) => joined("Internal Server Error: ", s),
            Error::UriNotFound(s) => joined("Uri not found: ", s),
        }
    }

    /// The reply payload for this error: its code and message, no data.
    pub fn to_response(&self) -> (r: Response)
        ensures
            is_status_response(r, self.code_spec(), self.text()),
    {
        let code = match self {
            Error::InternalServerError(_) => error_codes::INTERNAL_SERVER_ERROR,
            Error::UriNotFound(_) => error_codes::URI_NOT_FOUND,
        };
        Response {
            status: Some(Status { code: code.to_owned(), message: self.to_string(), data: None }),
            data: None,
        }
    }
}

} // verus!
