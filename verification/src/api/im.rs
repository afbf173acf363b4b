//! Get info on your direct messages.
//!
//! For more information, see [Slack's API documentation](https://api.slack.com/methods).
use vstd::prelude::*;

use super::{
    ApiRequest,
    choice_pair,
    no_params,
    number_pair,
    push_opt_choice,
    push_opt_number,
    push_opt_text,
    push_text,
    request,
    text_pair,
};
use crate::json::{read_member, member, DecodeError, FromJson, Json, decodable, DecodeFailure, member_text};

verus! {

/// Close a direct message channel.
///
/// Wraps https://api.slack.com/methods/im.close
pub fn close(token: &str, channel_id: &str) -> (r: ApiRequest)
    ensures
        r.method@ == "im.close"@,
        r.token@ == token@,
        r.pairs() == seq![("channel"@, channel_id@)],
{
    let mut params = no_params();
    push_text(&mut params, "channel", channel_id);
    let r = request("im.close", token, params);
    assert(r.pairs() =~= seq![("channel"@, channel_id@)]);
    r
}

#[derive(Clone, Debug)]
pub struct CloseResponse {
    pub no_op: Option<bool>,
    pub already_closed: Option<bool>,
}

impl FromJson for CloseResponse {
    open spec fn decoded_from(&self, j: Json) -> bool {
        &&& j is Object
        &&& self.no_op.decoded_from(member(j, "no_op"@))
        &&& self.already_closed.decoded_from(member(j, "already_closed"@))
    }

    open spec fn failure(j: Json) -> DecodeFailure {
        if !(j is Object) {
            DecodeFailure::Malformed
        } else if !decodable::<Option<bool>>(member(j, "no_op"@)) {
            <Option<bool> as FromJson>::failure(member(j, "no_op"@))
        } else if !decodable::<Option<bool>>(member(j, "already_closed"@)) {
            <Option<bool> as FromJson>::failure(member(j, "already_closed"@))
        } else {
            DecodeFailure::Malformed
        }
    }

    fn from_json(j: &Json) -> (r: Result<Self, DecodeError>) {
        if !j.is_object() {
            return Err(DecodeError::Malformed);
        }
        let no_op = read_member::<Option<bool>>(j, "no_op")?;
        let already_closed = read_member::<Option<bool>>(j, "already_closed")?;
        Ok(CloseResponse { no_op, already_closed })
    }
}

/// A `CloseResponse` read out of a JSON value: the value is an object and each field
/// holds the member of the same name (`null` for an absent optional one).
pub proof fn lemma_close_response_members(j: Json, x: CloseResponse)
    requires
        x.decoded_from(j),
    ensures
        j is Object,
        member(j, "no_op"@) == (match x.no_op { Some(b) => Json::Bool(b), None => Json::Null }),
        member(j, "already_closed"@) == (match x.already_closed { Some(b) => Json::Bool(b), None => Json::Null }),
{
}

/// Fetches history of messages and events from direct message channel.
///
/// Wraps https://api.slack.com/methods/im.history
pub fn history(
    token: &str,
    channel_id: &str,
    latest: Option<&str>,
    oldest: Option<&str>,
    inclusive: Option<bool>,
    count: Option<u32>,
) -> (r: ApiRequest)
    ensures
        r.method@ == "im.history"@,
        r.token@ == token@,
        r.pairs() == seq![("channel"@, channel_id@)]
            + text_pair("latest"@, latest)
            + text_pair("oldest"@, oldest)
            + choice_pair("inclusive"@, inclusive, "1"@, "0"@)
            + number_pair("count"@, count),
{
    let mut params = no_params();
    push_text(&mut params, "channel", channel_id);
    push_opt_text(&mut params, "latest", latest);
    push_opt_text(&mut params, "oldest", oldest);
    push_opt_choice(&mut params, "inclusive", inclusive, "1", "0");
    push_opt_number(&mut params, "count", count);
    let r = request("im.history", token, params);
    assert(r.pairs() =~= seq![("channel"@, channel_id@)]
        + text_pair("latest"@, latest)
        + text_pair("oldest"@, oldest)
        + choice_pair("inclusive"@, inclusive, "1"@, "0"@)
        + number_pair("count"@, count));
    r
}

#[derive(Debug)]
pub struct HistoryResponse {
    pub latest: String,
    pub messages: Vec<super::Message>,
    pub has_more: bool,
}

impl FromJson for HistoryResponse {
    open spec fn decoded_from(&self, j: Json) -> bool {
        &&& j is Object
        &&& self.latest.decoded_from(member(j, "latest"@))
        &&& self.messages.decoded_from(member(j, "messages"@))
        &&& self.has_more.decoded_from(member(j, "has_more"@))
    }

    open spec fn failure(j: Json) -> DecodeFailure {
        if !(j is Object) {
            DecodeFailure::Malformed
        } else if !decodable::<String>(member(j, "latest"@)) {
            <String as FromJson>::failure(member(j, "latest"@))
        } else if !decodable::<Vec<super::Message>>(member(j, "messages"@)) {
            <Vec<super::Message> as FromJson>::failure(member(j, "messages"@))
        } else if !decodable::<bool>(member(j, "has_more"@)) {
            <bool as FromJson>::failure(member(j, "has_more"@))
        } else {
            DecodeFailure::Malformed
        }
    }

    fn from_json(j: &Json) -> (r: Result<Self, DecodeError>) {
        if !j.is_object() {
            return Err(DecodeError::Malformed);
        }
        let latest = read_member::<String>(j, "latest")?;
        let messages = read_member::<Vec<super::Message>>(j, "messages")?;
        let has_more = read_member::<bool>(j, "has_more")?;
        Ok(HistoryResponse { latest, messages, has_more })
    }
}

/// A `HistoryResponse` read out of a JSON value: the value is an object and each field
/// holds the member of the same name (`null` for an absent optional one).
pub proof fn lemma_history_response_members(j: Json, x: HistoryResponse)
    requires
        x.decoded_from(j),
    ensures
        j is Object,
        member_text(j, "latest"@) == Some(x.latest@),
        x.messages.decoded_from(member(j, "messages"@)),
        member(j, "has_more"@) == Json::Bool(x.has_more),
{
}

/// Lists direct message channels for the calling user.
///
/// Wraps https://api.slack.com/methods/im.list
pub fn list(token: &str) -> (r: ApiRequest)
    ensures
        r.method@ == "im.list"@,
        r.token@ == token@,
        r.pairs() == Seq::<(Seq<char>, Seq<char>)>::empty(),
{
    let mut params = no_params();
    let r = request("im.list", token, params);
    assert(r.pairs() =~= Seq::<(Seq<char>, Seq<char>)>::empty());
    r
}

#[derive(Clone, Debug)]
pub struct ListResponse {
    pub ims: Vec<super::Im>,
}

impl FromJson for ListResponse {
    open spec fn decoded_from(&self, j: Json) -> bool {
        &&& j is Object
        &&& self.ims.decoded_from(member(j, "ims"@))
    }

    open spec fn failure(j: Json) -> DecodeFailure {
        if !(j is Object) {
            DecodeFailure::Malformed
        } else if !decodable::<Vec<super::Im>>(member(j, "ims"@)) {
            <Vec<super::Im> as FromJson>::failure(member(j, "ims"@))
        } else {
            DecodeFailure::Malformed
        }
    }

    fn from_json(j: &Json) -> (r: Result<Self, DecodeError>) {
        if !j.is_object() {
            return Err(DecodeError::Malformed);
        }
        let ims = read_member::<Vec<super::Im>>(j, "ims")?;
        Ok(ListResponse { ims })
    }
}

/// A `ListResponse` read out of a JSON value: the value is an object and each field
/// holds the member of the same name (`null` for an absent optional one).
pub proof fn lemma_list_response_members(j: Json, x: ListResponse)
    requires
        x.decoded_from(j),
    ensures
        j is Object,
        x.ims.decoded_from(member(j, "ims"@)),
{
}

/// Sets the read cursor in a direct message channel.
///
/// Wraps https://api.slack.com/methods/im.mark
pub fn mark(token: &str, channel_id: &str, timestamp: &str) -> (r: ApiRequest)
    ensures
        r.method@ == "im.mark"@,
        r.token@ == token@,
        r.pairs() == seq![("channel"@, channel_id@)] + seq![("timestamp"@, timestamp@)],
{
    let mut params = no_params();
    push_text(&mut params, "channel", channel_id);
    push_text(&mut params, "timestamp", timestamp);
    let r = request("im.mark", token, params);
    assert(r.pairs() =~= seq![("channel"@, channel_id@)] + seq![("timestamp"@, timestamp@)]);
    r
}

#[derive(Clone, Debug)]
pub struct MarkResponse;

impl FromJson for MarkResponse {
    open spec fn decoded_from(&self, j: Json) -> bool {
        true
    }

    open spec fn failure(j: Json) -> DecodeFailure {
        DecodeFailure::Malformed
    }

    fn from_json(j: &Json) -> (r: Result<Self, DecodeError>) {
        Ok(MarkResponse)
    }
}

/// Opens a direct message channel.
///
/// Wraps https://api.slack.com/methods/im.open
pub fn open(token: &str, user_id: &str) -> (r: ApiRequest)
    ensures
        r.method@ == "im.open"@,
        r.token@ == token@,
        r.pairs() == seq![("user"@, user_id@)],
{
    let mut params = no_params();
    push_text(&mut params, "user", user_id);
    let r = request("im.open", token, params);
    assert(r.pairs() =~= seq![("user"@, user_id@)]);
    r
}

#[derive(Clone, Debug)]
pub struct ChannelId {
    pub id: String,
}

impl FromJson for ChannelId {
    open spec fn decoded_from(&self, j: Json) -> bool {
        &&& j is Object
        &&& self.id.decoded_from(member(j, "id"@))
    }

    open spec fn failure(j: Json) -> DecodeFailure {
        if !(j is Object) {
            DecodeFailure::Malformed
        } else if !decodable::<String>(member(j, "id"@)) {
            <String as FromJson>::failure(member(j, "id"@))
        } else {
            DecodeFailure::Malformed
        }
    }

    fn from_json(j: &Json) -> (r: Result<Self, DecodeError>) {
        if !j.is_object() {
            return Err(DecodeError::Malformed);
        }
        let id = read_member::<String>(j, "id")?;
        Ok(ChannelId { id })
    }
}

/// A `ChannelId` read out of a JSON value: the value is an object and each field
/// holds the member of the same name (`null` for an absent optional one).
pub proof fn lemma_channel_id_members(j: Json, x: ChannelId)
    requires
        x.decoded_from(j),
    ensures
        j is Object,
        member_text(j, "id"@) == Some(x.id@),
{
}

#[derive(Clone, Debug)]
pub struct OpenResponse {
    pub no_op: Option<bool>,
    pub already_open: Option<bool>,
    pub channel: ChannelId,
}

impl FromJson for OpenResponse {
    open spec fn decoded_from(&self, j: Json) -> bool {
        &&& j is Object
        &&& self.no_op.decoded_from(member(j, "no_op"@))
        &&& self.already_open.decoded_from(member(j, "already_open"@))
        &&& self.channel.decoded_from(member(j, "channel"@))
    }

    open spec fn failure(j: Json) -> DecodeFailure {
        if !(j is Object) {
            DecodeFailure::Malformed
        } else if !decodable::<Option<bool>>(member(j, "no_op"@)) {
            <Option<bool> as FromJson>::failure(member(j, "no_op"@))
        } else if !decodable::<Option<bool>>(member(j, "already_open"@)) {
            <Option<bool> as FromJson>::failure(member(j, "already_open"@))
        } else if !decodable::<ChannelId>(member(j, "channel"@)) {
            <ChannelId as FromJson>::failure(member(j, "channel"@))
        } else {
            DecodeFailure::Malformed
        }
    }

    fn from_json(j: &Json) -> (r: Result<Self, DecodeError>) {
        if !j.is_object() {
            return Err(DecodeError::Malformed);
        }
        let no_op = read_member::<Option<bool>>(j, "no_op")?;
        let already_open = read_member::<Option<bool>>(j, "already_open")?;
        let channel = read_member::<ChannelId>(j, "channel")?;
        Ok(OpenResponse { no_op, already_open, channel })
    }
}

/// A `OpenResponse` read out of a JSON value: the value is an object and each field
/// holds the member of the same name (`null` for an absent optional one).
pub proof fn lemma_open_response_members(j: Json, x: OpenResponse)
    requires
        x.decoded_from(j),
    ensures
        j is Object,
        member(j, "no_op"@) == (match x.no_op { Some(b) => Json::Bool(b), None => Json::Null }),
        member(j, "already_open"@) == (match x.already_open { Some(b) => Json::Bool(b), None => Json::Null }),
        x.channel.decoded_from(member(j, "channel"@)),
{
}

} // verus!
