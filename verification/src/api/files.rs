//! Get info on files uploaded to Slack, upload new files to Slack.
//!
//! For more information, see [Slack's API documentation](https://api.slack.com/methods).
use vstd::prelude::*;

use super::{
    ApiRequest,
    no_params,
    number_pair,
    push_opt_number,
    push_opt_text,
    push_text,
    request,
    text_pair,
};
use crate::json::{read_member, member, DecodeError, FromJson, Json, decodable, DecodeFailure, member_text};

verus! {

/// Deletes a file.
///
/// Wraps https://api.slack.com/methods/files.delete
pub fn delete(token: &str, file: &str) -> (r: ApiRequest)
    ensures
        r.method@ == "files.delete"@,
        r.token@ == token@,
        r.pairs() == seq![("file"@, file@)],
{
    let mut params = no_params();
    push_text(&mut params, "file", file);
    let r = request("files.delete", token, params);
    assert(r.pairs() =~= seq![("file"@, file@)]);
    r
}

#[derive(Clone, Debug)]
pub struct DeleteResponse;

impl FromJson for DeleteResponse {
    open spec fn decoded_from(&self, j: Json) -> bool {
        true
    }

    open spec fn failure(j: Json) -> DecodeFailure {
        DecodeFailure::Malformed
    }

    fn from_json(j: &Json) -> (r: Result<Self, DecodeError>) {
        Ok(DeleteResponse)
    }
}

/// Gets information about a team file.
///
/// Wraps https://api.slack.com/methods/files.info
pub fn info(token: &str, file: &str, count: Option<u32>, page: Option<u32>) -> (r: ApiRequest)
    ensures
        r.method@ == "files.info"@,
        r.token@ == token@,
        r.pairs() == seq![("file"@, file@)]
            + number_pair("count"@, count)
            + number_pair("page"@, page),
{
    let mut params = no_params();
    push_text(&mut params, "file", file);
    push_opt_number(&mut params, "count", count);
    push_opt_number(&mut params, "page", page);
    let r = request("files.info", token, params);
    assert(r.pairs() =~= seq![("file"@, file@)]
        + number_pair("count"@, count)
        + number_pair("page"@, page));
    r
}

#[derive(Clone, Debug)]
pub struct InfoResponse {
    pub file: super::File,
    pub comments: Vec<super::Comment>,
    pub paging: super::Pagination,
}

impl FromJson for InfoResponse {
    open spec fn decoded_from(&self, j: Json) -> bool {
        &&& j is Object
        &&& self.file.decoded_from(member(j, "file"@))
        &&& self.comments.decoded_from(member(j, "comments"@))
        &&& self.paging.decoded_from(member(j, "paging"@))
    }

    open spec fn failure(j: Json) -> DecodeFailure {
        if !(j is Object) {
            DecodeFailure::Malformed
        } else if !decodable::<super::File>(member(j, "file"@)) {
            <super::File as FromJson>::failure(member(j, "file"@))
        } else if !decodable::<Vec<super::Comment>>(member(j, "comments"@)) {
            <Vec<super::Comment> as FromJson>::failure(member(j, "comments"@))
        } else if !decodable::<super::Pagination>(member(j, "paging"@)) {
            <super::Pagination as FromJson>::failure(member(j, "paging"@))
        } else {
            DecodeFailure::Malformed
        }
    }

    fn from_json(j: &Json) -> (r: Result<Self, DecodeError>) {
        if !j.is_object() {
            return Err(DecodeError::Malformed);
        }
        let file = read_member::<super::File>(j, "file")?;
        let comments = read_member::<Vec<super::Comment>>(j, "comments")?;
        let paging = read_member::<super::Pagination>(j, "paging")?;
        Ok(InfoResponse { file, comments, paging })
    }
}

/// A `InfoResponse` read out of a JSON value: the value is an object and each field
/// holds the member of the same name (`null` for an absent optional one).
pub proof fn lemma_info_response_members(j: Json, x: InfoResponse)
    requires
        x.decoded_from(j),
    ensures
        j is Object,
        x.file.decoded_from(member(j, "file"@)),
        x.comments.decoded_from(member(j, "comments"@)),
        x.paging.decoded_from(member(j, "paging"@)),
{
}

/// Lists & filters team files.
///
/// Wraps https://api.slack.com/methods/files.list
pub fn list(
    token: &str,
    user: Option<&str>,
    ts_from: Option<&str>,
    ts_to: Option<&str>,
    types: Option<&str>,
    count: Option<u32>,
    page: Option<u32>,
) -> (r: ApiRequest)
    ensures
        r.method@ == "files.list"@,
        r.token@ == token@,
        r.pairs() == text_pair("user"@, user)
            + text_pair("ts_from"@, ts_from)
            + text_pair("ts_to"@, ts_to)
            + text_pair("types"@, types)
            + number_pair("count"@, count)
            + number_pair("page"@, page),
{
    let mut params = no_params();
    push_opt_text(&mut params, "user", user);
    push_opt_text(&mut params, "ts_from", ts_from);
    push_opt_text(&mut params, "ts_to", ts_to);
    push_opt_text(&mut params, "types", types);
    push_opt_number(&mut params, "count", count);
    push_opt_number(&mut params, "page", page);
    let r = request("files.list", token, params);
    assert(r.pairs() =~= text_pair("user"@, user)
        + text_pair("ts_from"@, ts_from)
        + text_pair("ts_to"@, ts_to)
        + text_pair("types"@, types)
        + number_pair("count"@, count)
        + number_pair("page"@, page));
    r
}

#[derive(Clone, Debug)]
pub struct ListResponse {
    pub files: Vec<super::File>,
    pub paging: super::Pagination,
}

impl FromJson for ListResponse {
    open spec fn decoded_from(&self, j: Json) -> bool {
        &&& j is Object
        &&& self.files.decoded_from(member(j, "files"@))
        &&& self.paging.decoded_from(member(j, "paging"@))
    }

    open spec fn failure(j: Json) -> DecodeFailure {
        if !(j is Object) {
            DecodeFailure::Malformed
        } else if !decodable::<Vec<super::File>>(member(j, "files"@)) {
            <Vec<super::File> as FromJson>::failure(member(j, "files"@))
        } else if !decodable::<super::Pagination>(member(j, "paging"@)) {
            <super::Pagination as FromJson>::failure(member(j, "paging"@))
        } else {
            DecodeFailure::Malformed
        }
    }

    fn from_json(j: &Json) -> (r: Result<Self, DecodeError>) {
        if !j.is_object() {
            return Err(DecodeError::Malformed);
        }
        let files = read_member::<Vec<super::File>>(j, "files")?;
        let paging = read_member::<super::Pagination>(j, "paging")?;
        Ok(ListResponse { files, paging })
    }
}

/// A `ListResponse` read out of a JSON value: the value is an object and each field
/// holds the member of the same name (`null` for an absent optional one).
pub proof fn lemma_list_response_members(j: Json, x: ListResponse)
    requires
        x.decoded_from(j),
    ensures
        j is Object,
        x.files.decoded_from(member(j, "files"@)),
        x.paging.decoded_from(member(j, "paging"@)),
{
}

} // verus!
