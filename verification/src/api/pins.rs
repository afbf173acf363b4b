//! For more information, see [Slack's API
//! documentation](https://api.slack.com/methods).
use vstd::prelude::*;

use super::{ApiRequest, no_params, push_opt_text, push_text, request, text_pair};
use crate::json::{read_member, member, DecodeError, FromJson, Json, decodable, DecodeFailure, member_text};

verus! {

/// Pins an item to a channel.
///
/// Wraps https://api.slack.com/methods/pins.add
pub fn add(
    token: &str,
    channel: &str,
    file: Option<&str>,
    file_comment: Option<&str>,
    timestamp: Option<&str>,
) -> (r: ApiRequest)
    ensures
        r.method@ == "pins.add"@,
        r.token@ == token@,
        r.pairs() == seq![("channel"@, channel@)]
            + text_pair("file"@, file)
            + text_pair("file_comment"@, file_comment)
            + text_pair("timestamp"@, timestamp),
{
    let mut params = no_params();
    push_text(&mut params, "channel", channel);
    push_opt_text(&mut params, "file", file);
    push_opt_text(&mut params, "file_comment", file_comment);
    push_opt_text(&mut params, "timestamp", timestamp);
    let r = request("pins.add", token, params);
    assert(r.pairs() =~= seq![("channel"@, channel@)]
        + text_pair("file"@, file)
        + text_pair("file_comment"@, file_comment)
        + text_pair("timestamp"@, timestamp));
    r
}

#[derive(Clone, Debug)]
pub struct AddResponse;

impl FromJson for AddResponse {
    open spec fn decoded_from(&self, j: Json) -> bool {
        true
    }

    open spec fn failure(j: Json) -> DecodeFailure {
        DecodeFailure::Malformed
    }

    fn from_json(j: &Json) -> (r: Result<Self, DecodeError>) {
        Ok(AddResponse)
    }
}

/// Lists items pinned to a channel.
///
/// Wraps https://api.slack.com/methods/pins.list
pub fn list(token: &str, channel: &str) -> (r: ApiRequest)
    ensures
        r.method@ == "pins.list"@,
        r.token@ == token@,
        r.pairs() == seq![("channel"@, channel@)],
{
    let mut params = no_params();
    push_text(&mut params, "channel", channel);
    let r = request("pins.list", token, params);
    assert(r.pairs() =~= seq![("channel"@, channel@)]);
    r
}

#[derive(Debug)]
pub struct ListResponse {
    pub items: Vec<super::Item>,
}

impl FromJson for ListResponse {
    open spec fn decoded_from(&self, j: Json) -> bool {
        &&& j is Object
        &&& self.items.decoded_from(member(j, "items"@))
    }

    open spec fn failure(j: Json) -> DecodeFailure {
        if !(j is Object) {
            DecodeFailure::Malformed
        } else if !decodable::<Vec<super::Item>>(member(j, "items"@)) {
            <Vec<super::Item> as FromJson>::failure(member(j, "items"@))
        } else {
            DecodeFailure::Malformed
        }
    }

    fn from_json(j: &Json) -> (r: Result<Self, DecodeError>) {
        if !j.is_object() {
            return Err(DecodeError::Malformed);
        }
        let items = read_member::<Vec<super::Item>>(j, "items")?;
        Ok(ListResponse { items })
    }
}

/// A `ListResponse` read out of a JSON value: the value is an object and each field
/// holds the member of the same name (`null` for an absent optional one).
pub proof fn lemma_list_response_members(j: Json, x: ListResponse)
    requires
        x.decoded_from(j),
    ensures
        j is Object,
        x.items.decoded_from(member(j, "items"@)),
{
}

/// Un-pins an item from a channel.
///
/// Wraps https://api.slack.com/methods/pins.remove
pub fn remove(
    token: &str,
    channel: &str,
    file: Option<&str>,
    file_comment: Option<&str>,
    timestamp: Option<&str>,
) -> (r: ApiRequest)
    ensures
        r.method@ == "pins.remove"@,
        r.token@ == token@,
        r.pairs() == seq![("channel"@, channel@)]
            + text_pair("file"@, file)
            + text_pair("file_comment"@, file_comment)
            + text_pair("timestamp"@, timestamp),
{
    let mut params = no_params();
    push_text(&mut params, "channel", channel);
    push_opt_text(&mut params, "file", file);
    push_opt_text(&mut params, "file_comment", file_comment);
    push_opt_text(&mut params, "timestamp", timestamp);
    let r = request("pins.remove", token, params);
    assert(r.pairs() =~= seq![("channel"@, channel@)]
        + text_pair("file"@, file)
        + text_pair("file_comment"@, file_comment)
        + text_pair("timestamp"@, timestamp));
    r
}

#[derive(Clone, Debug)]
pub struct RemoveResponse;

impl FromJson for RemoveResponse {
    open spec fn decoded_from(&self, j: Json) -> bool {
        true
    }

    open spec fn failure(j: Json) -> DecodeFailure {
        DecodeFailure::Malformed
    }

    fn from_json(j: &Json) -> (r: Result<Self, DecodeError>) {
        Ok(RemoveResponse)
    }
}

} // verus!
