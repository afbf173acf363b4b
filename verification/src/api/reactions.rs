//! For more information, see [Slack's API documentation](https://api.slack.com/methods).
use vstd::prelude::*;

use super::{
    ApiRequest,
    no_params,
    number_pair,
    push_opt_number,
    push_opt_text,
    push_text,
    request,
    text_pair,
};
use crate::json::{read_member, member, DecodeError, FromJson, Json, decodable, DecodeFailure, member_text};

verus! {

/// Adds a reaction to an item.
///
/// Wraps https://api.slack.com/methods/reactions.add
pub fn add(
    token: &str,
    name: &str,
    file: Option<&str>,
    file_comment: Option<&str>,
    channel: Option<&str>,
    timestamp: Option<&str>,
) -> (r: ApiRequest)
    ensures
        r.method@ == "reactions.add"@,
        r.token@ == token@,
        r.pairs() == seq![("name"@, name@)]
            + text_pair("file"@, file)
            + text_pair("file_comment"@, file_comment)
            + text_pair("channel"@, channel)
            + text_pair("timestamp"@, timestamp),
{
    let mut params = no_params();
    push_text(&mut params, "name", name);
    push_opt_text(&mut params, "file", file);
    push_opt_text(&mut params, "file_comment", file_comment);
    push_opt_text(&mut params, "channel", channel);
    push_opt_text(&mut params, "timestamp", timestamp);
    let r = request("reactions.add", token, params);
    assert(r.pairs() =~= seq![("name"@, name@)]
        + text_pair("file"@, file)
        + text_pair("file_comment"@, file_comment)
        + text_pair("channel"@, channel)
        + text_pair("timestamp"@, timestamp));
    r
}

#[derive(Clone, Debug)]
pub struct AddResponse;

impl FromJson for AddResponse {
    open spec fn decoded_from(&self, j: Json) -> bool {
        true
    }

    open spec fn failure(j: Json) -> DecodeFailure {
        DecodeFailure::Malformed
    }

    fn from_json(j: &Json) -> (r: Result<Self, DecodeError>) {
        Ok(AddResponse)
    }
}

/// Gets reactions for an item.
///
/// Wraps https://api.slack.com/methods/reactions.get
pub fn get(
    token: &str,
    file: Option<&str>,
    file_comment: Option<&str>,
    channel: Option<&str>,
    timestamp: Option<&str>,
    full: Option<&str>,
) -> (r: ApiRequest)
    ensures
        r.method@ == "reactions.get"@,
        r.token@ == token@,
        r.pairs() == text_pair("file"@, file)
            + text_pair("file_comment"@, file_comment)
            + text_pair("channel"@, channel)
            + text_pair("timestamp"@, timestamp)
            + text_pair("full"@, full),
{
    let mut params = no_params();
    push_opt_text(&mut params, "file", file);
    push_opt_text(&mut params, "file_comment", file_comment);
    push_opt_text(&mut params, "channel", channel);
    push_opt_text(&mut params, "timestamp", timestamp);
    push_opt_text(&mut params, "full", full);
    let r = request("reactions.get", token, params);
    assert(r.pairs() =~= text_pair("file"@, file)
        + text_pair("file_comment"@, file_comment)
        + text_pair("channel"@, channel)
        + text_pair("timestamp"@, timestamp)
        + text_pair("full"@, full));
    r
}

/// Lists reactions made by a user.
///
/// Wraps https://api.slack.com/methods/reactions.list
pub fn list(
    token: &str,
    user: Option<&str>,
    full: Option<&str>,
    count: Option<u32>,
    page: Option<u32>,
) -> (r: ApiRequest)
    ensures
        r.method@ == "reactions.list"@,
        r.token@ == token@,
        r.pairs() == text_pair("user"@, user)
            + text_pair("full"@, full)
            + number_pair("count"@, count)
            + number_pair("page"@, page),
{
    let mut params = no_params();
    push_opt_text(&mut params, "user", user);
    push_opt_text(&mut params, "full", full);
    push_opt_number(&mut params, "count", count);
    push_opt_number(&mut params, "page", page);
    let r = request("reactions.list", token, params);
    assert(r.pairs() =~= text_pair("user"@, user)
        + text_pair("full"@, full)
        + number_pair("count"@, count)
        + number_pair("page"@, page));
    r
}

#[derive(Debug)]
pub struct ListResponse {
    pub items: Vec<super::Item>,
    pub paging: super::Pagination,
}

impl FromJson for ListResponse {
    open spec fn decoded_from(&self, j: Json) -> bool {
        &&& j is Object
        &&& self.items.decoded_from(member(j, "items"@))
        &&& self.paging.decoded_from(member(j, "paging"@))
    }

    open spec fn failure(j: Json) -> DecodeFailure {
        if !(j is Object) {
            DecodeFailure::Malformed
        } else if !decodable::<Vec<super::Item>>(member(j, "items"@)) {
            <Vec<super::Item> as FromJson>::failure(member(j, "items"@))
        } else if !decodable::<super::Pagination>(member(j, "paging"@)) {
            <super::Pagination as FromJson>::failure(member(j, "paging"@))
        } else {
            DecodeFailure::Malformed
        }
    }

    fn from_json(j: &Json) -> (r: Result<Self, DecodeError>) {
        if !j.is_object() {
            return Err(DecodeError::Malformed);
        }
        let items = read_member::<Vec<super::Item>>(j, "items")?;
        let paging = read_member::<super::Pagination>(j, "paging")?;
        Ok(ListResponse { items, paging })
    }
}

/// A `ListResponse` read out of a JSON value: the value is an object and each field
/// holds the member of the same name (`null` for an absent optional one).
pub proof fn lemma_list_response_members(j: Json, x: ListResponse)
    requires
        x.decoded_from(j),
    ensures
        j is Object,
        x.items.decoded_from(member(j, "items"@)),
        x.paging.decoded_from(member(j, "paging"@)),
{
}

/// Removes a reaction from an item.
///
/// Wraps https://api.slack.com/methods/reactions.remove
pub fn remove(
    token: &str,
    name: &str,
    file: Option<&str>,
    file_comment: Option<&str>,
    channel: Option<&str>,
    timestamp: Option<&str>,
) -> (r: ApiRequest)
    ensures
        r.method@ == "reactions.remove"@,
        r.token@ == token@,
        r.pairs() == seq![("name"@, name@)]
            + text_pair("file"@, file)
            + text_pair("file_comment"@, file_comment)
            + text_pair("channel"@, channel)
            + text_pair("timestamp"@, timestamp),
{
    let mut params = no_params();
    push_text(&mut params, "name", name);
    push_opt_text(&mut params, "file", file);
    push_opt_text(&mut params, "file_comment", file_comment);
    push_opt_text(&mut params, "channel", channel);
    push_opt_text(&mut params, "timestamp", timestamp);
    let r = request("reactions.remove", token, params);
    assert(r.pairs() =~= seq![("name"@, name@)]
        + text_pair("file"@, file)
        + text_pair("file_comment"@, file_comment)
        + text_pair("channel"@, channel)
        + text_pair("timestamp"@, timestamp));
    r
}

#[derive(Clone, Debug)]
pub struct RemoveResponse;

impl FromJson for RemoveResponse {
    open spec fn decoded_from(&self, j: Json) -> bool {
        true
    }

    open spec fn failure(j: Json) -> DecodeFailure {
        DecodeFailure::Malformed
    }

    fn from_json(j: &Json) -> (r: Result<Self, DecodeError>) {
        Ok(RemoveResponse)
    }
}

pub type GetResponse = super::Item;

} // verus!
