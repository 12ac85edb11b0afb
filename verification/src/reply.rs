//! From a verdict to the response that answers the request.

use vstd::prelude::*;
use vstd::string::*;
use crate::dispatch::Verdict;

verus! {

/// The status of the response to a request with an invalid field.
pub const BAD_REQUEST: u16 = 400;

/// The status of the response where the request cannot be read or the error cannot be
/// written.
pub const INTERNAL_SERVER_ERROR: u16 = 500;

/// What the body of a response holds.
#[derive(Debug, Clone, Copy, PartialEq, Eq, Structural)]
pub enum BodyFormat {
    /// A JSON document.
    Json,
    /// Plain text.
    Text,
}

/// A response that the dispatcher gives in place of the next stage's.
#[derive(Debug, PartialEq, Eq)]
pub struct Reply {
    pub status: u16,
    pub format: BodyFormat,
    pub body: String,
}

/// A response as plain values.
pub struct ReplyView {
    pub status: int,
    pub format: BodyFormat,
    pub body: Seq<char>,
}

impl View for Reply {
    type V = ReplyView;

    open spec fn view(&self) -> ReplyView {
        ReplyView { status: self.status as int, format: self.format, body: self.body@ }
    }
}

/// The text of a serialized error, or of the reason why it could not be serialized.
pub open spec fn encoded_view(encoded: Result<String, String>) -> Result<Seq<char>, Seq<char>> {
    match encoded {
        Ok(document) => Ok(document@),
        Err(detail) => Err(detail@),
    }
}

/// The body of the response where the error of the field `name` cannot be serialized, for
/// the reason `detail`.
pub open spec fn serialization_diagnostic(name: Seq<char>, detail: Seq<char>) -> Seq<char> {
    "cannot serialize the error of '"@ + name + "': "@ + detail
}

/// The response to a request whose field `name` is invalid: the serialized error with the
/// status 400, or, where the error could not be serialized, the diagnostic with the
/// status 500.
pub open spec fn rejection_view(name: Seq<char>, encoded: Result<Seq<char>, Seq<char>>) -> ReplyView {
    match encoded {
        Ok(document) => ReplyView { status: 400, format: BodyFormat::Json, body: document },
        Err(detail) => ReplyView {
            status: 500,
            format: BodyFormat::Text,
            body: serialization_diagnostic(name, detail),
        },
    }
}

/// The response to a request whose query string cannot be decoded.
pub open spec fn malformed_query_view() -> ReplyView {
    ReplyView { status: 500, format: BodyFormat::Text, body: "cannot read query parameters"@ }
}

/// The response to a request whose field `name` is invalid. `encoded` is what came of
/// serializing the validator's error: the JSON document, or the reason why there is none.
pub fn rejection(name: &str, encoded: Result<String, String>) -> (reply: Reply)
    ensures
        reply@ == rejection_view(name@, encoded_view(encoded)),
{
    match encoded {
        Ok(document) => Reply { status: BAD_REQUEST, format: BodyFormat::Json, body: document },
        Err(detail) => {
            let mut body = "cannot serialize the error of '".to_owned();
            body.append(name);
            body.append("': ");
            body.append(detail.as_str());
            Reply { status: INTERNAL_SERVER_ERROR, format: BodyFormat::Text, body }
        },
    }
}

/// The response to a request whose query string cannot be decoded.
pub fn malformed_query() -> (reply: Reply)
    ensures
        reply@ == malformed_query_view(),
{
    Reply {
        status: INTERNAL_SERVER_ERROR,
        format: BodyFormat::Text,
        body: "cannot read query parameters".to_owned(),
    }
}

impl<T> Verdict<T> {
    /// The response that the verdict calls for, or `None` where the request goes on to
    /// the next stage. `encode` serializes the error of an invalid field; what it returns
    /// becomes the response as [`rejection`] says.
    pub fn respond<F: FnOnce(&T) -> Result<String, String>>(&self, encode: F) -> (reply: Option<Reply>)
        requires
            self is Invalid ==> call_requires(encode, (&self->error,)),
        ensures
            self is Forward ==> reply is None,
            self is MalformedQuery ==> reply is Some && reply->0@ == malformed_query_view(),
            self is Invalid ==> reply is Some && exists|encoded: Result<String, String>|
                #[trigger] call_ensures(encode, (&self->error,), encoded) && reply->0@
                    == rejection_view(self->field@.name, encoded_view(encoded)),
    {
        match self {
            Verdict::Forward => None,
            Verdict::MalformedQuery => Some(malformed_query()),
            Verdict::Invalid { field, index: _, error } => {
                let encoded = encode(error);
                Some(rejection(field.name(), encoded))
            },
        }
    }
}

} // verus!
