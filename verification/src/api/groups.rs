//! Get info on your team's private groups.
//!
//! For more information, see [Slack's API documentation](https://api.slack.com/methods).
use vstd::prelude::*;

use super::{
    ApiRequest,
    choice_pair,
    no_params,
    number_pair,
    push_opt_choice,
    push_opt_number,
    push_opt_text,
    push_text,
    request,
    text_pair,
};
use crate::json::{read_member, member, DecodeError, FromJson, Json, decodable, DecodeFailure, member_text};

verus! {

/// Archives a private group.
///
/// Wraps https://api.slack.com/methods/groups.archive
pub fn archive(token: &str, channel: &str) -> (r: ApiRequest)
    ensures
        r.method@ == "groups.archive"@,
        r.token@ == token@,
        r.pairs() == seq![("channel"@, channel@)],
{
    let mut params = no_params();
    push_text(&mut params, "channel", channel);
    let r = request("groups.archive", token, params);
    assert(r.pairs() =~= seq![("channel"@, channel@)]);
    r
}

#[derive(Clone, Debug)]
pub struct ArchiveResponse;

impl FromJson for ArchiveResponse {
    open spec fn decoded_from(&self, j: Json) -> bool {
        true
    }

    open spec fn failure(j: Json) -> DecodeFailure {
        DecodeFailure::Malformed
    }

    fn from_json(j: &Json) -> (r: Result<Self, DecodeError>) {
        Ok(ArchiveResponse)
    }
}

/// Closes a private group.
///
/// Wraps https://api.slack.com/methods/groups.close
pub fn close(token: &str, channel: &str) -> (r: ApiRequest)
    ensures
        r.method@ == "groups.close"@,
        r.token@ == token@,
        r.pairs() == seq![("channel"@, channel@)],
{
    let mut params = no_params();
    push_text(&mut params, "channel", channel);
    let r = request("groups.close", token, params);
    assert(r.pairs() =~= seq![("channel"@, channel@)]);
    r
}

#[derive(Clone, Debug)]
pub struct CloseResponse {
    pub no_op: Option<bool>,
    pub already_closed: Option<bool>,
}

impl FromJson for CloseResponse {
    open spec fn decoded_from(&self, j: Json) -> bool {
        &&& j is Object
        &&& self.no_op.decoded_from(member(j, "no_op"@))
        &&& self.already_closed.decoded_from(member(j, "already_closed"@))
    }

    open spec fn failure(j: Json) -> DecodeFailure {
        if !(j is Object) {
            DecodeFailure::Malformed
        } else if !decodable::<Option<bool>>(member(j, "no_op"@)) {
            <Option<bool> as FromJson>::failure(member(j, "no_op"@))
        } else if !decodable::<Option<bool>>(member(j, "already_closed"@)) {
            <Option<bool> as FromJson>::failure(member(j, "already_closed"@))
        } else {
            DecodeFailure::Malformed
        }
    }

    fn from_json(j: &Json) -> (r: Result<Self, DecodeError>) {
        if !j.is_object() {
            return Err(DecodeError::Malformed);
        }
        let no_op = read_member::<Option<bool>>(j, "no_op")?;
        let already_closed = read_member::<Option<bool>>(j, "already_closed")?;
        Ok(CloseResponse { no_op, already_closed })
    }
}

/// A `CloseResponse` read out of a JSON value: the value is an object and each field
/// holds the member of the same name (`null` for an absent optional one).
pub proof fn lemma_close_response_members(j: Json, x: CloseResponse)
    requires
        x.decoded_from(j),
    ensures
        j is Object,
        member(j, "no_op"@) == (match x.no_op { Some(b) => Json::Bool(b), None => Json::Null }),
        member(j, "already_closed"@) == (match x.already_closed { Some(b) => Json::Bool(b), None => Json::Null }),
{
}

/// Creates a private group.
///
/// Wraps https://api.slack.com/methods/groups.create
pub fn create(token: &str, name: &str) -> (r: ApiRequest)
    ensures
        r.method@ == "groups.create"@,
        r.token@ == token@,
        r.pairs() == seq![("name"@, name@)],
{
    let mut params = no_params();
    push_text(&mut params, "name", name);
    let r = request("groups.create", token, params);
    assert(r.pairs() =~= seq![("name"@, name@)]);
    r
}

#[derive(Clone, Debug)]
pub struct CreateResponse {
    pub group: super::Group,
}

impl FromJson for CreateResponse {
    open spec fn decoded_from(&self, j: Json) -> bool {
        &&& j is Object
        &&& self.group.decoded_from(member(j, "group"@))
    }

    open spec fn failure(j: Json) -> DecodeFailure {
        if !(j is Object) {
            DecodeFailure::Malformed
        } else if !decodable::<super::Group>(member(j, "group"@)) {
            <super::Group as FromJson>::failure(member(j, "group"@))
        } else {
            DecodeFailure::Malformed
        }
    }

    fn from_json(j: &Json) -> (r: Result<Self, DecodeError>) {
        if !j.is_object() {
            return Err(DecodeError::Malformed);
        }
        let group = read_member::<super::Group>(j, "group")?;
        Ok(CreateResponse { group })
    }
}

/// A `CreateResponse` read out of a JSON value: the value is an object and each field
/// holds the member of the same name (`null` for an absent optional one).
pub proof fn lemma_create_response_members(j: Json, x: CreateResponse)
    requires
        x.decoded_from(j),
    ensures
        j is Object,
        x.group.decoded_from(member(j, "group"@)),
{
}

/// Clones and archives a private group.
///
/// Wraps https://api.slack.com/methods/groups.createChild
pub fn create_child(token: &str, channel: &str) -> (r: ApiRequest)
    ensures
        r.method@ == "groups.createChild"@,
        r.token@ == token@,
        r.pairs() == seq![("channel"@, channel@)],
{
    let mut params = no_params();
    push_text(&mut params, "channel", channel);
    let r = request("groups.createChild", token, params);
    assert(r.pairs() =~= seq![("channel"@, channel@)]);
    r
}

#[derive(Clone, Debug)]
pub struct CreateChildResponse {
    pub group: super::Group,
}

impl FromJson for CreateChildResponse {
    open spec fn decoded_from(&self, j: Json) -> bool {
        &&& j is Object
        &&& self.group.decoded_from(member(j, "group"@))
    }

    open spec fn failure(j: Json) -> DecodeFailure {
        if !(j is Object) {
            DecodeFailure::Malformed
        } else if !decodable::<super::Group>(member(j, "group"@)) {
            <super::Group as FromJson>::failure(member(j, "group"@))
        } else {
            DecodeFailure::Malformed
        }
    }

    fn from_json(j: &Json) -> (r: Result<Self, DecodeError>) {
        if !j.is_object() {
            return Err(DecodeError::Malformed);
        }
        let group = read_member::<super::Group>(j, "group")?;
        Ok(CreateChildResponse { group })
    }
}

/// A `CreateChildResponse` read out of a JSON value: the value is an object and each field
/// holds the member of the same name (`null` for an absent optional one).
pub proof fn lemma_create_child_response_members(j: Json, x: CreateChildResponse)
    requires
        x.decoded_from(j),
    ensures
        j is Object,
        x.group.decoded_from(member(j, "group"@)),
{
}

/// Fetches history of messages and events from a private group.
///
/// Wraps https://api.slack.com/methods/groups.history
pub fn history(
    token: &str,
    channel: &str,
    latest: Option<&str>,
    oldest: Option<&str>,
    inclusive: Option<bool>,
    count: Option<u32>,
) -> (r: ApiRequest)
    ensures
        r.method@ == "groups.history"@,
        r.token@ == token@,
        r.pairs() == seq![("channel"@, channel@)]
            + text_pair("latest"@, latest)
            + text_pair("oldest"@, oldest)
            + choice_pair("inclusive"@, inclusive, "1"@, "0"@)
            + number_pair("count"@, count),
{
    let mut params = no_params();
    push_text(&mut params, "channel", channel);
    push_opt_text(&mut params, "latest", latest);
    push_opt_text(&mut params, "oldest", oldest);
    push_opt_choice(&mut params, "inclusive", inclusive, "1", "0");
    push_opt_number(&mut params, "count", count);
    let r = request("groups.history", token, params);
    assert(r.pairs() =~= seq![("channel"@, channel@)]
        + text_pair("latest"@, latest)
        + text_pair("oldest"@, oldest)
        + choice_pair("inclusive"@, inclusive, "1"@, "0"@)
        + number_pair("count"@, count));
    r
}

#[derive(Debug)]
pub struct HistoryResponse {
    pub latest: Option<String>,
    pub oldest: Option<String>,
    pub messages: Vec<super::Message>,
    pub has_more: bool,
    pub is_limited: Option<bool>,
}

impl FromJson for HistoryResponse {
    open spec fn decoded_from(&self, j: Json) -> bool {
        &&& j is Object
        &&& self.latest.decoded_from(member(j, "latest"@))
        &&& self.oldest.decoded_from(member(j, "oldest"@))
        &&& self.messages.decoded_from(member(j, "messages"@))
        &&& self.has_more.decoded_from(member(j, "has_more"@))
        &&& self.is_limited.decoded_from(member(j, "is_limited"@))
    }

    open spec fn failure(j: Json) -> DecodeFailure {
        if !(j is Object) {
            DecodeFailure::Malformed
        } else if !decodable::<Option<String>>(member(j, "latest"@)) {
            <Option<String> as FromJson>::failure(member(j, "latest"@))
        } else if !decodable::<Option<String>>(member(j, "oldest"@)) {
            <Option<String> as FromJson>::failure(member(j, "oldest"@))
        } else if !decodable::<Vec<super::Message>>(member(j, "messages"@)) {
            <Vec<super::Message> as FromJson>::failure(member(j, "messages"@))
        } else if !decodable::<bool>(member(j, "has_more"@)) {
            <bool as FromJson>::failure(member(j, "has_more"@))
        } else if !decodable::<Option<bool>>(member(j, "is_limited"@)) {
            <Option<bool> as FromJson>::failure(member(j, "is_limited"@))
        } else {
            DecodeFailure::Malformed
        }
    }

    fn from_json(j: &Json) -> (r: Result<Self, DecodeError>) {
        if !j.is_object() {
            return Err(DecodeError::Malformed);
        }
        let latest = read_member::<Option<String>>(j, "latest")?;
        let oldest = read_member::<Option<String>>(j, "oldest")?;
        let messages = read_member::<Vec<super::Message>>(j, "messages")?;
        let has_more = read_member::<bool>(j, "has_more")?;
        let is_limited = read_member::<Option<bool>>(j, "is_limited")?;
        Ok(HistoryResponse { latest, oldest, messages, has_more, is_limited })
    }
}

/// A `HistoryResponse` read out of a JSON value: the value is an object and each field
/// holds the member of the same name (`null` for an absent optional one).
pub proof fn lemma_history_response_members(j: Json, x: HistoryResponse)
    requires
        x.decoded_from(j),
    ensures
        j is Object,
        (match x.latest { Some(s) => member_text(j, "latest"@) == Some(s@), None => member(j, "latest"@) is Null }),
        (match x.oldest { Some(s) => member_text(j, "oldest"@) == Some(s@), None => member(j, "oldest"@) is Null }),
        x.messages.decoded_from(member(j, "messages"@)),
        member(j, "has_more"@) == Json::Bool(x.has_more),
        member(j, "is_limited"@) == (match x.is_limited { Some(b) => Json::Bool(b), None => Json::Null }),
{
}

/// Gets information about a private group.
///
/// Wraps https://api.slack.com/methods/groups.info
pub fn info(token: &str, channel: &str) -> (r: ApiRequest)
    ensures
        r.method@ == "groups.info"@,
        r.token@ == token@,
        r.pairs() == seq![("channel"@, channel@)],
{
    let mut params = no_params();
    push_text(&mut params, "channel", channel);
    let r = request("groups.info", token, params);
    assert(r.pairs() =~= seq![("channel"@, channel@)]);
    r
}

#[derive(Clone, Debug)]
pub struct InfoResponse {
    pub group: super::Group,
}

impl FromJson for InfoResponse {
    open spec fn decoded_from(&self, j: Json) -> bool {
        &&& j is Object
        &&& self.group.decoded_from(member(j, "group"@))
    }

    open spec fn failure(j: Json) -> DecodeFailure {
        if !(j is Object) {
            DecodeFailure::Malformed
        } else if !decodable::<super::Group>(member(j, "group"@)) {
            <super::Group as FromJson>::failure(member(j, "group"@))
        } else {
            DecodeFailure::Malformed
        }
    }

    fn from_json(j: &Json) -> (r: Result<Self, DecodeError>) {
        if !j.is_object() {
            return Err(DecodeError::Malformed);
        }
        let group = read_member::<super::Group>(j, "group")?;
        Ok(InfoResponse { group })
    }
}

/// A `InfoResponse` read out of a JSON value: the value is an object and each field
/// holds the member of the same name (`null` for an absent optional one).
pub proof fn lemma_info_response_members(j: Json, x: InfoResponse)
    requires
        x.decoded_from(j),
    ensures
        j is Object,
        x.group.decoded_from(member(j, "group"@)),
{
}

/// Invites a user to a private group.
///
/// Wraps https://api.slack.com/methods/groups.invite
pub fn invite(token: &str, channel: &str, user: &str) -> (r: ApiRequest)
    ensures
        r.method@ == "groups.invite"@,
        r.token@ == token@,
        r.pairs() == seq![("channel"@, channel@)] + seq![("user"@, user@)],
{
    let mut params = no_params();
    push_text(&mut params, "channel", channel);
    push_text(&mut params, "user", user);
    let r = request("groups.invite", token, params);
    assert(r.pairs() =~= seq![("channel"@, channel@)] + seq![("user"@, user@)]);
    r
}

#[derive(Clone, Debug)]
pub struct InviteResponse {
    pub group: super::Group,
    pub already_in_group: Option<bool>,
}

impl FromJson for InviteResponse {
    open spec fn decoded_from(&self, j: Json) -> bool {
        &&& j is Object
        &&& self.group.decoded_from(member(j, "group"@))
        &&& self.already_in_group.decoded_from(member(j, "already_in_group"@))
    }

    open spec fn failure(j: Json) -> DecodeFailure {
        if !(j is Object) {
            DecodeFailure::Malformed
        } else if !decodable::<super::Group>(member(j, "group"@)) {
            <super::Group as FromJson>::failure(member(j, "group"@))
        } else if !decodable::<Option<bool>>(member(j, "already_in_group"@)) {
            <Option<bool> as FromJson>::failure(member(j, "already_in_group"@))
        } else {
            DecodeFailure::Malformed
        }
    }

    fn from_json(j: &Json) -> (r: Result<Self, DecodeError>) {
        if !j.is_object() {
            return Err(DecodeError::Malformed);
        }
        let group = read_member::<super::Group>(j, "group")?;
        let already_in_group = read_member::<Option<bool>>(j, "already_in_group")?;
        Ok(InviteResponse { group, already_in_group })
    }
}

/// A `InviteResponse` read out of a JSON value: the value is an object and each field
/// holds the member of the same name (`null` for an absent optional one).
pub proof fn lemma_invite_response_members(j: Json, x: InviteResponse)
    requires
        x.decoded_from(j),
    ensures
        j is Object,
        x.group.decoded_from(member(j, "group"@)),
        member(j, "already_in_group"@) == (match x.already_in_group { Some(b) => Json::Bool(b), None => Json::Null }),
{
}

/// Removes a user from a private group.
///
/// Wraps https://api.slack.com/methods/groups.kick
pub fn kick(token: &str, channel: &str, user: &str) -> (r: ApiRequest)
    ensures
        r.method@ == "groups.kick"@,
        r.token@ == token@,
        r.pairs() == seq![("channel"@, channel@)] + seq![("user"@, user@)],
{
    let mut params = no_params();
    push_text(&mut params, "channel", channel);
    push_text(&mut params, "user", user);
    let r = request("groups.kick", token, params);
    assert(r.pairs() =~= seq![("channel"@, channel@)] + seq![("user"@, user@)]);
    r
}

#[derive(Clone, Debug)]
pub struct KickResponse;

impl FromJson for KickResponse {
    open spec fn decoded_from(&self, j: Json) -> bool {
        true
    }

    open spec fn failure(j: Json) -> DecodeFailure {
        DecodeFailure::Malformed
    }

    fn from_json(j: &Json) -> (r: Result<Self, DecodeError>) {
        Ok(KickResponse)
    }
}

/// Leaves a private group.
///
/// Wraps https://api.slack.com/methods/groups.leave
pub fn leave(token: &str, channel: &str) -> (r: ApiRequest)
    ensures
        r.method@ == "groups.leave"@,
        r.token@ == token@,
        r.pairs() == seq![("channel"@, channel@)],
{
    let mut params = no_params();
    push_text(&mut params, "channel", channel);
    let r = request("groups.leave", token, params);
    assert(r.pairs() =~= seq![("channel"@, channel@)]);
    r
}

#[derive(Clone, Debug)]
pub struct LeaveResponse;

impl FromJson for LeaveResponse {
    open spec fn decoded_from(&self, j: Json) -> bool {
        true
    }

    open spec fn failure(j: Json) -> DecodeFailure {
        DecodeFailure::Malformed
    }

    fn from_json(j: &Json) -> (r: Result<Self, DecodeError>) {
        Ok(LeaveResponse)
    }
}

/// Lists private groups that the calling user has access to.
///
/// Wraps https://api.slack.com/methods/groups.list
pub fn list(token: &str, exclude_archived: Option<bool>) -> (r: ApiRequest)
    ensures
        r.method@ == "groups.list"@,
        r.token@ == token@,
        r.pairs() == choice_pair("exclude_archived"@, exclude_archived, "1"@, "0"@),
{
    let mut params = no_params();
    push_opt_choice(&mut params, "exclude_archived", exclude_archived, "1", "0");
    let r = request("groups.list", token, params);
    assert(r.pairs() =~= choice_pair("exclude_archived"@, exclude_archived, "1"@, "0"@));
    r
}

#[derive(Clone, Debug)]
pub struct ListResponse {
    pub groups: Vec<super::Group>,
}

impl FromJson for ListResponse {
    open spec fn decoded_from(&self, j: Json) -> bool {
        &&& j is Object
        &&& self.groups.decoded_from(member(j, "groups"@))
    }

    open spec fn failure(j: Json) -> DecodeFailure {
        if !(j is Object) {
            DecodeFailure::Malformed
        } else if !decodable::<Vec<super::Group>>(member(j, "groups"@)) {
            <Vec<super::Group> as FromJson>::failure(member(j, "groups"@))
        } else {
            DecodeFailure::Malformed
        }
    }

    fn from_json(j: &Json) -> (r: Result<Self, DecodeError>) {
        if !j.is_object() {
            return Err(DecodeError::Malformed);
        }
        let groups = read_member::<Vec<super::Group>>(j, "groups")?;
        Ok(ListResponse { groups })
    }
}

/// A `ListResponse` read out of a JSON value: the value is an object and each field
/// holds the member of the same name (`null` for an absent optional one).
pub proof fn lemma_list_response_members(j: Json, x: ListResponse)
    requires
        x.decoded_from(j),
    ensures
        j is Object,
        x.groups.decoded_from(member(j, "groups"@)),
{
}

/// Sets the read cursor in a private group.
///
/// Wraps https://api.slack.com/methods/groups.mark
pub fn mark(token: &str, channel: &str, ts: &str) -> (r: ApiRequest)
    ensures
        r.method@ == "groups.mark"@,
        r.token@ == token@,
        r.pairs() == seq![("channel"@, channel@)] + seq![("ts"@, ts@)],
{
    let mut params = no_params();
    push_text(&mut params, "channel", channel);
    push_text(&mut params, "ts", ts);
    let r = request("groups.mark", token, params);
    assert(r.pairs() =~= seq![("channel"@, channel@)] + seq![("ts"@, ts@)]);
    r
}

#[derive(Clone, Debug)]
pub struct MarkResponse;

impl FromJson for MarkResponse {
    open spec fn decoded_from(&self, j: Json) -> bool {
        true
    }

    open spec fn failure(j: Json) -> DecodeFailure {
        DecodeFailure::Malformed
    }

    fn from_json(j: &Json) -> (r: Result<Self, DecodeError>) {
        Ok(MarkResponse)
    }
}

/// Opens a private group.
///
/// Wraps https://api.slack.com/methods/groups.open
pub fn open(token: &str, channel: &str) -> (r: ApiRequest)
    ensures
        r.method@ == "groups.open"@,
        r.token@ == token@,
        r.pairs() == seq![("channel"@, channel@)],
{
    let mut params = no_params();
    push_text(&mut params, "channel", channel);
    let r = request("groups.open", token, params);
    assert(r.pairs() =~= seq![("channel"@, channel@)]);
    r
}

#[derive(Clone, Debug)]
pub struct OpenResponse {
    pub no_op: Option<bool>,
    pub already_open: Option<bool>,
}

impl FromJson for OpenResponse {
    open spec fn decoded_from(&self, j: Json) -> bool {
        &&& j is Object
        &&& self.no_op.decoded_from(member(j, "no_op"@))
        &&& self.already_open.decoded_from(member(j, "already_open"@))
    }

    open spec fn failure(j: Json) -> DecodeFailure {
        if !(j is Object) {
            DecodeFailure::Malformed
        } else if !decodable::<Option<bool>>(member(j, "no_op"@)) {
            <Option<bool> as FromJson>::failure(member(j, "no_op"@))
        } else if !decodable::<Option<bool>>(member(j, "already_open"@)) {
            <Option<bool> as FromJson>::failure(member(j, "already_open"@))
        } else {
            DecodeFailure::Malformed
        }
    }

    fn from_json(j: &Json) -> (r: Result<Self, DecodeError>) {
        if !j.is_object() {
            return Err(DecodeError::Malformed);
        }
        let no_op = read_member::<Option<bool>>(j, "no_op")?;
        let already_open = read_member::<Option<bool>>(j, "already_open")?;
        Ok(OpenResponse { no_op, already_open })
    }
}

/// A `OpenResponse` read out of a JSON value: the value is an object and each field
/// holds the member of the same name (`null` for an absent optional one).
pub proof fn lemma_open_response_members(j: Json, x: OpenResponse)
    requires
        x.decoded_from(j),
    ensures
        j is Object,
        member(j, "no_op"@) == (match x.no_op { Some(b) => Json::Bool(b), None => Json::Null }),
        member(j, "already_open"@) == (match x.already_open { Some(b) => Json::Bool(b), None => Json::Null }),
{
}

/// Renames a private group.
///
/// Wraps https://api.slack.com/methods/groups.rename
pub fn rename(token: &str, channel: &str, name: &str) -> (r: ApiRequest)
    ensures
        r.method@ == "groups.rename"@,
        r.token@ == token@,
        r.pairs() == seq![("channel"@, channel@)] + seq![("name"@, name@)],
{
    let mut params = no_params();
    push_text(&mut params, "channel", channel);
    push_text(&mut params, "name", name);
    let r = request("groups.rename", token, params);
    assert(r.pairs() =~= seq![("channel"@, channel@)] + seq![("name"@, name@)]);
    r
}

#[derive(Clone, Debug)]
pub struct AbridgedGroup {
    pub id: String,
    pub is_group: bool,
    pub name: String,
    pub created: i32,
}

impl FromJson for AbridgedGroup {
    open spec fn decoded_from(&self, j: Json) -> bool {
        &&& j is Object
        &&& self.id.decoded_from(member(j, "id"@))
        &&& self.is_group.decoded_from(member(j, "is_group"@))
        &&& self.name.decoded_from(member(j, "name"@))
        &&& self.created.decoded_from(member(j, "created"@))
    }

    open spec fn failure(j: Json) -> DecodeFailure {
        if !(j is Object) {
            DecodeFailure::Malformed
        } else if !decodable::<String>(member(j, "id"@)) {
            <String as FromJson>::failure(member(j, "id"@))
        } else if !decodable::<bool>(member(j, "is_group"@)) {
            <bool as FromJson>::failure(member(j, "is_group"@))
        } else if !decodable::<String>(member(j, "name"@)) {
            <String as FromJson>::failure(member(j, "name"@))
        } else if !decodable::<i32>(member(j, "created"@)) {
            <i32 as FromJson>::failure(member(j, "created"@))
        } else {
            DecodeFailure::Malformed
        }
    }

    fn from_json(j: &Json) -> (r: Result<Self, DecodeError>) {
        if !j.is_object() {
            return Err(DecodeError::Malformed);
        }
        let id = read_member::<String>(j, "id")?;
        let is_group = read_member::<bool>(j, "is_group")?;
        let name = read_member::<String>(j, "name")?;
        let created = read_member::<i32>(j, "created")?;
        Ok(AbridgedGroup { id, is_group, name, created })
    }
}

/// A `AbridgedGroup` read out of a JSON value: the value is an object and each field
/// holds the member of the same name (`null` for an absent optional one).
pub proof fn lemma_abridged_group_members(j: Json, x: AbridgedGroup)
    requires
        x.decoded_from(j),
    ensures
        j is Object,
        member_text(j, "id"@) == Some(x.id@),
        member(j, "is_group"@) == Json::Bool(x.is_group),
        member_text(j, "name"@) == Some(x.name@),
        member(j, "created"@) == Json::Int(x.created as i128),
{
}

#[derive(Clone, Debug)]
pub struct RenameResponse {
    pub channel: AbridgedGroup,
}

impl FromJson for RenameResponse {
    open spec fn decoded_from(&self, j: Json) -> bool {
        &&& j is Object
        &&& self.channel.decoded_from(member(j, "channel"@))
    }

    open spec fn failure(j: Json) -> DecodeFailure {
        if !(j is Object) {
            DecodeFailure::Malformed
        } else if !decodable::<AbridgedGroup>(member(j, "channel"@)) {
            <AbridgedGroup as FromJson>::failure(member(j, "channel"@))
        } else {
            DecodeFailure::Malformed
        }
    }

    fn from_json(j: &Json) -> (r: Result<Self, DecodeError>) {
        if !j.is_object() {
            return Err(DecodeError::Malformed);
        }
        let channel = read_member::<AbridgedGroup>(j, "channel")?;
        Ok(RenameResponse { channel })
    }
}

/// A `RenameResponse` read out of a JSON value: the value is an object and each field
/// holds the member of the same name (`null` for an absent optional one).
pub proof fn lemma_rename_response_members(j: Json, x: RenameResponse)
    requires
        x.decoded_from(j),
    ensures
        j is Object,
        x.channel.decoded_from(member(j, "channel"@)),
{
}

/// Sets the purpose for a private group.
///
/// Wraps https://api.slack.com/methods/groups.setPurpose
pub fn set_purpose(token: &str, channel: &str, purpose: &str) -> (r: ApiRequest)
    ensures
        r.method@ == "groups.setPurpose"@,
        r.token@ == token@,
        r.pairs() == seq![("channel"@, channel@)] + seq![("purpose"@, purpose@)],
{
    let mut params = no_params();
    push_text(&mut params, "channel", channel);
    push_text(&mut params, "purpose", purpose);
    let r = request("groups.setPurpose", token, params);
    assert(r.pairs() =~= seq![("channel"@, channel@)] + seq![("purpose"@, purpose@)]);
    r
}

#[derive(Clone, Debug)]
pub struct SetPurposeResponse {
    pub purpose: String,
}

impl FromJson for SetPurposeResponse {
    open spec fn decoded_from(&self, j: Json) -> bool {
        &&& j is Object
        &&& self.purpose.decoded_from(member(j, "purpose"@))
    }

    open spec fn failure(j: Json) -> DecodeFailure {
        if !(j is Object) {
            DecodeFailure::Malformed
        } else if !decodable::<String>(member(j, "purpose"@)) {
            <String as FromJson>::failure(member(j, "purpose"@))
        } else {
            DecodeFailure::Malformed
        }
    }

    fn from_json(j: &Json) -> (r: Result<Self, DecodeError>) {
        if !j.is_object() {
            return Err(DecodeError::Malformed);
        }
        let purpose = read_member::<String>(j, "purpose")?;
        Ok(SetPurposeResponse { purpose })
    }
}

/// A `SetPurposeResponse` read out of a JSON value: the value is an object and each field
/// holds the member of the same name (`null` for an absent optional one).
pub proof fn lemma_set_purpose_response_members(j: Json, x: SetPurposeResponse)
    requires
        x.decoded_from(j),
    ensures
        j is Object,
        member_text(j, "purpose"@) == Some(x.purpose@),
{
}

/// Sets the topic for a private group.
///
/// Wraps https://api.slack.com/methods/groups.setTopic
pub fn set_topic(token: &str, channel: &str, topic: &str) -> (r: ApiRequest)
    ensures
        r.method@ == "groups.setTopic"@,
        r.token@ == token@,
        r.pairs() == seq![("channel"@, channel@)] + seq![("topic"@, topic@)],
{
    let mut params = no_params();
    push_text(&mut params, "channel", channel);
    push_text(&mut params, "topic", topic);
    let r = request("groups.setTopic", token, params);
    assert(r.pairs() =~= seq![("channel"@, channel@)] + seq![("topic"@, topic@)]);
    r
}

#[derive(Clone, Debug)]
pub struct SetTopicResponse {
    pub topic: String,
}

impl FromJson for SetTopicResponse {
    open spec fn decoded_from(&self, j: Json) -> bool {
        &&& j is Object
        &&& self.topic.decoded_from(member(j, "topic"@))
    }

    open spec fn failure(j: Json) -> DecodeFailure {
        if !(j is Object) {
            DecodeFailure::Malformed
        } else if !decodable::<String>(member(j, "topic"@)) {
            <String as FromJson>::failure(member(j, "topic"@))
        } else {
            DecodeFailure::Malformed
        }
    }

    fn from_json(j: &Json) -> (r: Result<Self, DecodeError>) {
        if !j.is_object() {
            return Err(DecodeError::Malformed);
        }
        let topic = read_member::<String>(j, "topic")?;
        Ok(SetTopicResponse { topic })
    }
}

/// A `SetTopicResponse` read out of a JSON value: the value is an object and each field
/// holds the member of the same name (`null` for an absent optional one).
pub proof fn lemma_set_topic_response_members(j: Json, x: SetTopicResponse)
    requires
        x.decoded_from(j),
    ensures
        j is Object,
        member_text(j, "topic"@) == Some(x.topic@),
{
}

/// Unarchives a private group.
///
/// Wraps https://api.slack.com/methods/groups.unarchive
pub fn unarchive(token: &str, channel: &str) -> (r: ApiRequest)
    ensures
        r.method@ == "groups.unarchive"@,
        r.token@ == token@,
        r.pairs() == seq![("channel"@, channel@)],
{
    let mut params = no_params();
    push_text(&mut params, "channel", channel);
    let r = request("groups.unarchive", token, params);
    assert(r.pairs() =~= seq![("channel"@, channel@)]);
    r
}

#[derive(Clone, Debug)]
pub struct UnarchiveResponse;

impl FromJson for UnarchiveResponse {
    open spec fn decoded_from(&self, j: Json) -> bool {
        true
    }

    open spec fn failure(j: Json) -> DecodeFailure {
        DecodeFailure::Malformed
    }

    fn from_json(j: &Json) -> (r: Result<Self, DecodeError>) {
        Ok(UnarchiveResponse)
    }
}

} // verus!
