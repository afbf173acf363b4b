//! The errors that the client reports.
use vstd::prelude::*;

use crate::json::DecodeError;

verus! {

/// `slack::Error` represents errors that can happen while using the `RtmClient`
#[derive(Debug)]
pub enum Error {
    /// Http client error
    Http(String),
    /// WebSocket connection error
    WebSocket(String),
    /// Error decoding websocket text frame Utf8
    Utf8(String),
    /// Error parsing url
    Url(String),
    /// Error decoding Json
    Json(serde_json::Error),
    /// Slack Api Error
    Api(String),
    /// Errors that do not fit under the other types, Internal is for EG channel errors.
    Internal(String),
    /// A JSON document that does not have the shape of the expected Slack type
    Decode(DecodeError),
}

impl From<serde_json::Error> for Error {
    fn from(err: serde_json::Error) -> (r: Error) {
        Error::Json(err)
    }
}

impl vstd::std_specs::convert::FromSpecImpl<serde_json::Error> for Error {
    open spec fn obeys_from_spec() -> bool {
        true
    }

    open spec fn from_spec(v: serde_json::Error) -> Error {
        Error::Json(v)
    }
}

impl From<DecodeError> for Error {
    fn from(err: DecodeError) -> (r: Error) {
        Error::Decode(err)
    }
}

impl vstd::std_specs::convert::FromSpecImpl<DecodeError> for Error {
    open spec fn obeys_from_spec() -> bool {
        true
    }

    open spec fn from_spec(v: DecodeError) -> Error {
        Error::Decode(v)
    }
}

/// The message that `serde_json` gives for `e` (its `Display` form); nothing
/// is stated of the text.
#[verifier::external_body]
fn json_error_text(e: &serde_json::Error) -> String {
    e.to_string()
}

impl Error {
    /// The text of the error, a prefix naming its kind followed by the detail.
    pub fn describe(&self) -> (s: String)
        ensures
            match self {
                Error::Http(d) => s@ == "Http (reqwest) Error: "@ + d@,
                Error::WebSocket(d) => s@ == "Websocket Error: "@ + d@,
                Error::Utf8(d) => s@ == "Utf8 decode Error: "@ + d@,
                Error::Url(d) => s@ == "Url Error: "@ + d@,
                Error::Json(_) => "Json Error: "@.is_prefix_of(s@),
                Error::Api(d) => s@ == "Slack Api Error: "@ + d@,
                Error::Internal(d) => s@ == "Internal Error: "@ + d@,
                Error::Decode(DecodeError::Malformed) => s@ == "Json decode Error: unexpected shape"@,
                Error::Decode(DecodeError::Unknown(d)) => s@ == "Json decode Error: "@ + d@,
            },
    {
        match self {
            Error::Http(d) => "Http (reqwest) Error: ".to_owned().concat(d.as_str()),
            Error::WebSocket(d) => "Websocket Error: ".to_owned().concat(d.as_str()),
            Error::Utf8(d) => "Utf8 decode Error: ".to_owned().concat(d.as_str()),
            Error::Url(d) => "Url Error: ".to_owned().concat(d.as_str()),
            Error::Json(e) => {
                let detail = json_error_text(e);
                let s = "Json Error: ".to_owned().concat(detail.as_str());
                assert("Json Error: "@.is_prefix_of(s@)) by {
                    assert(s@.subrange(0, "Json Error: "@.len() as int) =~= "Json Error: "@);
                }
                s
            },
            Error::Api(d) => "Slack Api Error: ".to_owned().concat(d.as_str()),
            Error::Internal(d) => "Internal Error: ".to_owned().concat(d.as_str()),
            Error::Decode(DecodeError::Malformed) => "Json decode Error: unexpected shape".to_owned(),
            Error::Decode(DecodeError::Unknown(d)) => "Json decode Error: ".to_owned().concat(d.as_str()),
        }
    }
}

} // verus!
