//! For more information, see [Slack's API documentation](https://api.slack.com/methods).
use vstd::prelude::*;

use super::{ApiRequest, no_params, number_pair, push_opt_number, push_opt_text, request, text_pair};
use crate::json::{read_member, member, DecodeError, FromJson, Json, decodable, DecodeFailure, member_text};

verus! {

/// Adds a star to an item.
///
/// Wraps https://api.slack.com/methods/stars.add
pub fn add(
    token: &str,
    file: Option<&str>,
    file_comment: Option<&str>,
    channel: Option<&str>,
    timestamp: Option<&str>,
) -> (r: ApiRequest)
    ensures
        r.method@ == "stars.add"@,
        r.token@ == token@,
        r.pairs() == text_pair("file"@, file)
            + text_pair("file_comment"@, file_comment)
            + text_pair("channel"@, channel)
            + text_pair("timestamp"@, timestamp),
{
    let mut params = no_params();
    push_opt_text(&mut params, "file", file);
    push_opt_text(&mut params, "file_comment", file_comment);
    push_opt_text(&mut params, "channel", channel);
    push_opt_text(&mut params, "timestamp", timestamp);
    let r = request("stars.add", token, params);
    assert(r.pairs() =~= text_pair("file"@, file)
        + text_pair("file_comment"@, file_comment)
        + text_pair("channel"@, channel)
        + text_pair("timestamp"@, timestamp));
    r
}

#[derive(Clone, Debug)]
pub struct AddResponse;

impl FromJson for AddResponse {
    open spec fn decoded_from(&self, j: Json) -> bool {
        true
    }

    open spec fn failure(j: Json) -> DecodeFailure {
        DecodeFailure::Malformed
    }

    fn from_json(j: &Json) -> (r: Result<Self, DecodeError>) {
        Ok(AddResponse)
    }
}

/// Lists stars for a user.
///
/// Wraps https://api.slack.com/methods/stars.list
pub fn list(
    token: &str,
    user: Option<&str>,
    count: Option<u32>,
    page: Option<u32>,
) -> (r: ApiRequest)
    ensures
        r.method@ == "stars.list"@,
        r.token@ == token@,
        r.pairs() == text_pair("user"@, user)
            + number_pair("count"@, count)
            + number_pair("page"@, page),
{
    let mut params = no_params();
    push_opt_text(&mut params, "user", user);
    push_opt_number(&mut params, "count", count);
    push_opt_number(&mut params, "page", page);
    let r = request("stars.list", token, params);
    assert(r.pairs() =~= text_pair("user"@, user)
        + number_pair("count"@, count)
        + number_pair("page"@, page));
    r
}

#[derive(Debug)]
pub struct ListResponse {
    pub items: Vec<super::StarredItem>,
    pub paging: super::Pagination,
}

impl FromJson for ListResponse {
    open spec fn decoded_from(&self, j: Json) -> bool {
        &&& j is Object
        &&& self.items.decoded_from(member(j, "items"@))
        &&& self.paging.decoded_from(member(j, "paging"@))
    }

    open spec fn failure(j: Json) -> DecodeFailure {
        if !(j is Object) {
            DecodeFailure::Malformed
        } else if !decodable::<Vec<super::StarredItem>>(member(j, "items"@)) {
            <Vec<super::StarredItem> as FromJson>::failure(member(j, "items"@))
        } else if !decodable::<super::Pagination>(member(j, "paging"@)) {
            <super::Pagination as FromJson>::failure(member(j, "paging"@))
        } else {
            DecodeFailure::Malformed
        }
    }

    fn from_json(j: &Json) -> (r: Result<Self, DecodeError>) {
        if !j.is_object() {
            return Err(DecodeError::Malformed);
        }
        let items = read_member::<Vec<super::StarredItem>>(j, "items")?;
        let paging = read_member::<super::Pagination>(j, "paging")?;
        Ok(ListResponse { items, paging })
    }
}

/// A `ListResponse` read out of a JSON value: the value is an object and each field
/// holds the member of the same name (`null` for an absent optional one).
pub proof fn lemma_list_response_members(j: Json, x: ListResponse)
    requires
        x.decoded_from(j),
    ensures
        j is Object,
        x.items.decoded_from(member(j, "items"@)),
        x.paging.decoded_from(member(j, "paging"@)),
{
}

/// Removes a star from an item.
///
/// Wraps https://api.slack.com/methods/stars.remove
pub fn remove(
    token: &str,
    file: Option<&str>,
    file_comment: Option<&str>,
    channel: Option<&str>,
    timestamp: Option<&str>,
) -> (r: ApiRequest)
    ensures
        r.method@ == "stars.remove"@,
        r.token@ == token@,
        r.pairs() == text_pair("file"@, file)
            + text_pair("file_comment"@, file_comment)
            + text_pair("channel"@, channel)
            + text_pair("timestamp"@, timestamp),
{
    let mut params = no_params();
    push_opt_text(&mut params, "file", file);
    push_opt_text(&mut params, "file_comment", file_comment);
    push_opt_text(&mut params, "channel", channel);
    push_opt_text(&mut params, "timestamp", timestamp);
    let r = request("stars.remove", token, params);
    assert(r.pairs() =~= text_pair("file"@, file)
        + text_pair("file_comment"@, file_comment)
        + text_pair("channel"@, channel)
        + text_pair("timestamp"@, timestamp));
    r
}

#[derive(Clone, Debug)]
pub struct RemoveResponse;

impl FromJson for RemoveResponse {
    open spec fn decoded_from(&self, j: Json) -> bool {
        true
    }

    open spec fn failure(j: Json) -> DecodeFailure {
        DecodeFailure::Malformed
    }

    fn from_json(j: &Json) -> (r: Result<Self, DecodeError>) {
        Ok(RemoveResponse)
    }
}

} // verus!
