//! Get info on your team's Slack channels, create or archive channels, invite users, set the topic
//! and purpose, and mark a channel as read.
//!
//! For more information, see [Slack's API documentation](https://api.slack.com/methods).
use vstd::prelude::*;

use super::{
    ApiRequest,
    choice_pair,
    no_params,
    number_pair,
    push_opt_choice,
    push_opt_number,
    push_opt_text,
    push_text,
    request,
    text_pair,
};
use crate::json::{read_member, member, DecodeError, FromJson, Json, decodable, DecodeFailure, member_text};

verus! {

/// Archives a channel.
///
/// Wraps https://api.slack.com/methods/channels.archive
pub fn archive(token: &str, channel: &str) -> (r: ApiRequest)
    ensures
        r.method@ == "channels.archive"@,
        r.token@ == token@,
        r.pairs() == seq![("channel"@, channel@)],
{
    let mut params = no_params();
    push_text(&mut params, "channel", channel);
    let r = request("channels.archive", token, params);
    assert(r.pairs() =~= seq![("channel"@, channel@)]);
    r
}

#[derive(Clone, Debug)]
pub struct ArchiveResponse;

impl FromJson for ArchiveResponse {
    open spec fn decoded_from(&self, j: Json) -> bool {
        true
    }

    open spec fn failure(j: Json) -> DecodeFailure {
        DecodeFailure::Malformed
    }

    fn from_json(j: &Json) -> (r: Result<Self, DecodeError>) {
        Ok(ArchiveResponse)
    }
}

/// Creates a channel.
///
/// Wraps https://api.slack.com/methods/channels.create
pub fn create(token: &str, name: &str) -> (r: ApiRequest)
    ensures
        r.method@ == "channels.create"@,
        r.token@ == token@,
        r.pairs() == seq![("name"@, name@)],
{
    let mut params = no_params();
    push_text(&mut params, "name", name);
    let r = request("channels.create", token, params);
    assert(r.pairs() =~= seq![("name"@, name@)]);
    r
}

#[derive(Clone, Debug)]
pub struct CreateResponse {
    pub channel: super::Channel,
}

impl FromJson for CreateResponse {
    open spec fn decoded_from(&self, j: Json) -> bool {
        &&& j is Object
        &&& self.channel.decoded_from(member(j, "channel"@))
    }

    open spec fn failure(j: Json) -> DecodeFailure {
        if !(j is Object) {
            DecodeFailure::Malformed
        } else if !decodable::<super::Channel>(member(j, "channel"@)) {
            <super::Channel as FromJson>::failure(member(j, "channel"@))
        } else {
            DecodeFailure::Malformed
        }
    }

    fn from_json(j: &Json) -> (r: Result<Self, DecodeError>) {
        if !j.is_object() {
            return Err(DecodeError::Malformed);
        }
        let channel = read_member::<super::Channel>(j, "channel")?;
        Ok(CreateResponse { channel })
    }
}

/// A `CreateResponse` read out of a JSON value: the value is an object and each field
/// holds the member of the same name (`null` for an absent optional one).
pub proof fn lemma_create_response_members(j: Json, x: CreateResponse)
    requires
        x.decoded_from(j),
    ensures
        j is Object,
        x.channel.decoded_from(member(j, "channel"@)),
{
}

/// Fetches history of messages and events from a channel.
///
/// Wraps https://api.slack.com/methods/channels.history
pub fn history(
    token: &str,
    channel: &str,
    latest: Option<&str>,
    oldest: Option<&str>,
    inclusive: Option<bool>,
    count: Option<u32>,
) -> (r: ApiRequest)
    ensures
        r.method@ == "channels.history"@,
        r.token@ == token@,
        r.pairs() == seq![("channel"@, channel@)]
            + text_pair("latest"@, latest)
            + text_pair("oldest"@, oldest)
            + choice_pair("inclusive"@, inclusive, "1"@, "0"@)
            + number_pair("count"@, count),
{
    let mut params = no_params();
    push_text(&mut params, "channel", channel);
    push_opt_text(&mut params, "latest", latest);
    push_opt_text(&mut params, "oldest", oldest);
    push_opt_choice(&mut params, "inclusive", inclusive, "1", "0");
    push_opt_number(&mut params, "count", count);
    let r = request("channels.history", token, params);
    assert(r.pairs() =~= seq![("channel"@, channel@)]
        + text_pair("latest"@, latest)
        + text_pair("oldest"@, oldest)
        + choice_pair("inclusive"@, inclusive, "1"@, "0"@)
        + number_pair("count"@, count));
    r
}

#[derive(Debug)]
pub struct HistoryResponse {
    pub latest: Option<String>,
    pub oldest: Option<String>,
    pub messages: Vec<super::Message>,
    pub has_more: bool,
}

impl FromJson for HistoryResponse {
    open spec fn decoded_from(&self, j: Json) -> bool {
        &&& j is Object
        &&& self.latest.decoded_from(member(j, "latest"@))
        &&& self.oldest.decoded_from(member(j, "oldest"@))
        &&& self.messages.decoded_from(member(j, "messages"@))
        &&& self.has_more.decoded_from(member(j, "has_more"@))
    }

    open spec fn failure(j: Json) -> DecodeFailure {
        if !(j is Object) {
            DecodeFailure::Malformed
        } else if !decodable::<Option<String>>(member(j, "latest"@)) {
            <Option<String> as FromJson>::failure(member(j, "latest"@))
        } else if !decodable::<Option<String>>(member(j, "oldest"@)) {
            <Option<String> as FromJson>::failure(member(j, "oldest"@))
        } else if !decodable::<Vec<super::Message>>(member(j, "messages"@)) {
            <Vec<super::Message> as FromJson>::failure(member(j, "messages"@))
        } else if !decodable::<bool>(member(j, "has_more"@)) {
            <bool as FromJson>::failure(member(j, "has_more"@))
        } else {
            DecodeFailure::Malformed
        }
    }

    fn from_json(j: &Json) -> (r: Result<Self, DecodeError>) {
        if !j.is_object() {
            return Err(DecodeError::Malformed);
        }
        let latest = read_member::<Option<String>>(j, "latest")?;
        let oldest = read_member::<Option<String>>(j, "oldest")?;
        let messages = read_member::<Vec<super::Message>>(j, "messages")?;
        let has_more = read_member::<bool>(j, "has_more")?;
        Ok(HistoryResponse { latest, oldest, messages, has_more })
    }
}

/// A `HistoryResponse` read out of a JSON value: the value is an object and each field
/// holds the member of the same name (`null` for an absent optional one).
pub proof fn lemma_history_response_members(j: Json, x: HistoryResponse)
    requires
        x.decoded_from(j),
    ensures
        j is Object,
        (match x.latest { Some(s) => member_text(j, "latest"@) == Some(s@), None => member(j, "latest"@) is Null }),
        (match x.oldest { Some(s) => member_text(j, "oldest"@) == Some(s@), None => member(j, "oldest"@) is Null }),
        x.messages.decoded_from(member(j, "messages"@)),
        member(j, "has_more"@) == Json::Bool(x.has_more),
{
}

/// Gets information about a channel.
///
/// Wraps https://api.slack.com/methods/channels.info
pub fn info(token: &str, channel: &str) -> (r: ApiRequest)
    ensures
        r.method@ == "channels.info"@,
        r.token@ == token@,
        r.pairs() == seq![("channel"@, channel@)],
{
    let mut params = no_params();
    push_text(&mut params, "channel", channel);
    let r = request("channels.info", token, params);
    assert(r.pairs() =~= seq![("channel"@, channel@)]);
    r
}

#[derive(Clone, Debug)]
pub struct InfoResponse {
    pub channel: super::Channel,
}

impl FromJson for InfoResponse {
    open spec fn decoded_from(&self, j: Json) -> bool {
        &&& j is Object
        &&& self.channel.decoded_from(member(j, "channel"@))
    }

    open spec fn failure(j: Json) -> DecodeFailure {
        if !(j is Object) {
            DecodeFailure::Malformed
        } else if !decodable::<super::Channel>(member(j, "channel"@)) {
            <super::Channel as FromJson>::failure(member(j, "channel"@))
        } else {
            DecodeFailure::Malformed
        }
    }

    fn from_json(j: &Json) -> (r: Result<Self, DecodeError>) {
        if !j.is_object() {
            return Err(DecodeError::Malformed);
        }
        let channel = read_member::<super::Channel>(j, "channel")?;
        Ok(InfoResponse { channel })
    }
}

/// A `InfoResponse` read out of a JSON value: the value is an object and each field
/// holds the member of the same name (`null` for an absent optional one).
pub proof fn lemma_info_response_members(j: Json, x: InfoResponse)
    requires
        x.decoded_from(j),
    ensures
        j is Object,
        x.channel.decoded_from(member(j, "channel"@)),
{
}

/// Invites a user to a channel.
///
/// Wraps https://api.slack.com/methods/channels.invite
pub fn invite(token: &str, channel: &str, user: &str) -> (r: ApiRequest)
    ensures
        r.method@ == "channels.invite"@,
        r.token@ == token@,
        r.pairs() == seq![("channel"@, channel@)] + seq![("user"@, user@)],
{
    let mut params = no_params();
    push_text(&mut params, "channel", channel);
    push_text(&mut params, "user", user);
    let r = request("channels.invite", token, params);
    assert(r.pairs() =~= seq![("channel"@, channel@)] + seq![("user"@, user@)]);
    r
}

#[derive(Clone, Debug)]
pub struct InviteResponse {
    pub channel: super::Channel,
}

impl FromJson for InviteResponse {
    open spec fn decoded_from(&self, j: Json) -> bool {
        &&& j is Object
        &&& self.channel.decoded_from(member(j, "channel"@))
    }

    open spec fn failure(j: Json) -> DecodeFailure {
        if !(j is Object) {
            DecodeFailure::Malformed
        } else if !decodable::<super::Channel>(member(j, "channel"@)) {
            <super::Channel as FromJson>::failure(member(j, "channel"@))
        } else {
            DecodeFailure::Malformed
        }
    }

    fn from_json(j: &Json) -> (r: Result<Self, DecodeError>) {
        if !j.is_object() {
            return Err(DecodeError::Malformed);
        }
        let channel = read_member::<super::Channel>(j, "channel")?;
        Ok(InviteResponse { channel })
    }
}

/// A `InviteResponse` read out of a JSON value: the value is an object and each field
/// holds the member of the same name (`null` for an absent optional one).
pub proof fn lemma_invite_response_members(j: Json, x: InviteResponse)
    requires
        x.decoded_from(j),
    ensures
        j is Object,
        x.channel.decoded_from(member(j, "channel"@)),
{
}

/// Joins a channel, creating it if needed.
///
/// Wraps https://api.slack.com/methods/channels.join
pub fn join(token: &str, name: &str) -> (r: ApiRequest)
    ensures
        r.method@ == "channels.join"@,
        r.token@ == token@,
        r.pairs() == seq![("name"@, name@)],
{
    let mut params = no_params();
    push_text(&mut params, "name", name);
    let r = request("channels.join", token, params);
    assert(r.pairs() =~= seq![("name"@, name@)]);
    r
}

#[derive(Clone, Debug)]
pub struct JoinResponse {
    pub already_in_channel: Option<bool>,
    pub channel: super::Channel,
}

impl FromJson for JoinResponse {
    open spec fn decoded_from(&self, j: Json) -> bool {
        &&& j is Object
        &&& self.already_in_channel.decoded_from(member(j, "already_in_channel"@))
        &&& self.channel.decoded_from(member(j, "channel"@))
    }

    open spec fn failure(j: Json) -> DecodeFailure {
        if !(j is Object) {
            DecodeFailure::Malformed
        } else if !decodable::<Option<bool>>(member(j, "already_in_channel"@)) {
            <Option<bool> as FromJson>::failure(member(j, "already_in_channel"@))
        } else if !decodable::<super::Channel>(member(j, "channel"@)) {
            <super::Channel as FromJson>::failure(member(j, "channel"@))
        } else {
            DecodeFailure::Malformed
        }
    }

    fn from_json(j: &Json) -> (r: Result<Self, DecodeError>) {
        if !j.is_object() {
            return Err(DecodeError::Malformed);
        }
        let already_in_channel = read_member::<Option<bool>>(j, "already_in_channel")?;
        let channel = read_member::<super::Channel>(j, "channel")?;
        Ok(JoinResponse { already_in_channel, channel })
    }
}

/// A `JoinResponse` read out of a JSON value: the value is an object and each field
/// holds the member of the same name (`null` for an absent optional one).
pub proof fn lemma_join_response_members(j: Json, x: JoinResponse)
    requires
        x.decoded_from(j),
    ensures
        j is Object,
        member(j, "already_in_channel"@) == (match x.already_in_channel { Some(b) => Json::Bool(b), None => Json::Null }),
        x.channel.decoded_from(member(j, "channel"@)),
{
}

/// Removes a user from a channel.
///
/// Wraps https://api.slack.com/methods/channels.kick
pub fn kick(token: &str, channel: &str, user: &str) -> (r: ApiRequest)
    ensures
        r.method@ == "channels.kick"@,
        r.token@ == token@,
        r.pairs() == seq![("channel"@, channel@)] + seq![("user"@, user@)],
{
    let mut params = no_params();
    push_text(&mut params, "channel", channel);
    push_text(&mut params, "user", user);
    let r = request("channels.kick", token, params);
    assert(r.pairs() =~= seq![("channel"@, channel@)] + seq![("user"@, user@)]);
    r
}

#[derive(Clone, Debug)]
pub struct KickResponse;

impl FromJson for KickResponse {
    open spec fn decoded_from(&self, j: Json) -> bool {
        true
    }

    open spec fn failure(j: Json) -> DecodeFailure {
        DecodeFailure::Malformed
    }

    fn from_json(j: &Json) -> (r: Result<Self, DecodeError>) {
        Ok(KickResponse)
    }
}

/// Leaves a channel.
///
/// Wraps https://api.slack.com/methods/channels.leave
pub fn leave(token: &str, channel: &str) -> (r: ApiRequest)
    ensures
        r.method@ == "channels.leave"@,
        r.token@ == token@,
        r.pairs() == seq![("channel"@, channel@)],
{
    let mut params = no_params();
    push_text(&mut params, "channel", channel);
    let r = request("channels.leave", token, params);
    assert(r.pairs() =~= seq![("channel"@, channel@)]);
    r
}

#[derive(Clone, Debug)]
pub struct LeaveResponse {
    pub not_in_channel: Option<bool>,
}

impl FromJson for LeaveResponse {
    open spec fn decoded_from(&self, j: Json) -> bool {
        &&& j is Object
        &&& self.not_in_channel.decoded_from(member(j, "not_in_channel"@))
    }

    open spec fn failure(j: Json) -> DecodeFailure {
        if !(j is Object) {
            DecodeFailure::Malformed
        } else if !decodable::<Option<bool>>(member(j, "not_in_channel"@)) {
            <Option<bool> as FromJson>::failure(member(j, "not_in_channel"@))
        } else {
            DecodeFailure::Malformed
        }
    }

    fn from_json(j: &Json) -> (r: Result<Self, DecodeError>) {
        if !j.is_object() {
            return Err(DecodeError::Malformed);
        }
        let not_in_channel = read_member::<Option<bool>>(j, "not_in_channel")?;
        Ok(LeaveResponse { not_in_channel })
    }
}

/// A `LeaveResponse` read out of a JSON value: the value is an object and each field
/// holds the member of the same name (`null` for an absent optional one).
pub proof fn lemma_leave_response_members(j: Json, x: LeaveResponse)
    requires
        x.decoded_from(j),
    ensures
        j is Object,
        member(j, "not_in_channel"@) == (match x.not_in_channel { Some(b) => Json::Bool(b), None => Json::Null }),
{
}

/// Lists all channels in a Slack team.
///
/// Wraps https://api.slack.com/methods/channels.list
pub fn list(token: &str, exclude_archived: Option<bool>) -> (r: ApiRequest)
    ensures
        r.method@ == "channels.list"@,
        r.token@ == token@,
        r.pairs() == choice_pair("exclude_archived"@, exclude_archived, "1"@, "0"@),
{
    let mut params = no_params();
    push_opt_choice(&mut params, "exclude_archived", exclude_archived, "1", "0");
    let r = request("channels.list", token, params);
    assert(r.pairs() =~= choice_pair("exclude_archived"@, exclude_archived, "1"@, "0"@));
    r
}

#[derive(Clone, Debug)]
pub struct ListResponse {
    pub channels: Vec<super::Channel>,
}

impl FromJson for ListResponse {
    open spec fn decoded_from(&self, j: Json) -> bool {
        &&& j is Object
        &&& self.channels.decoded_from(member(j, "channels"@))
    }

    open spec fn failure(j: Json) -> DecodeFailure {
        if !(j is Object) {
            DecodeFailure::Malformed
        } else if !decodable::<Vec<super::Channel>>(member(j, "channels"@)) {
            <Vec<super::Channel> as FromJson>::failure(member(j, "channels"@))
        } else {
            DecodeFailure::Malformed
        }
    }

    fn from_json(j: &Json) -> (r: Result<Self, DecodeError>) {
        if !j.is_object() {
            return Err(DecodeError::Malformed);
        }
        let channels = read_member::<Vec<super::Channel>>(j, "channels")?;
        Ok(ListResponse { channels })
    }
}

/// A `ListResponse` read out of a JSON value: the value is an object and each field
/// holds the member of the same name (`null` for an absent optional one).
pub proof fn lemma_list_response_members(j: Json, x: ListResponse)
    requires
        x.decoded_from(j),
    ensures
        j is Object,
        x.channels.decoded_from(member(j, "channels"@)),
{
}

/// Sets the read cursor in a channel.
///
/// https://api.slack.com/methods/channels.mark
pub fn mark(token: &str, channel: &str, ts: &str) -> (r: ApiRequest)
    ensures
        r.method@ == "channels.mark"@,
        r.token@ == token@,
        r.pairs() == seq![("channel"@, channel@)] + seq![("ts"@, ts@)],
{
    let mut params = no_params();
    push_text(&mut params, "channel", channel);
    push_text(&mut params, "ts", ts);
    let r = request("channels.mark", token, params);
    assert(r.pairs() =~= seq![("channel"@, channel@)] + seq![("ts"@, ts@)]);
    r
}

#[derive(Clone, Debug)]
pub struct MarkResponse;

impl FromJson for MarkResponse {
    open spec fn decoded_from(&self, j: Json) -> bool {
        true
    }

    open spec fn failure(j: Json) -> DecodeFailure {
        DecodeFailure::Malformed
    }

    fn from_json(j: &Json) -> (r: Result<Self, DecodeError>) {
        Ok(MarkResponse)
    }
}

/// Renames a channel.
///
/// Wraps https://api.slack.com/methods/channels.rename
pub fn rename(token: &str, channel: &str, name: &str) -> (r: ApiRequest)
    ensures
        r.method@ == "channels.rename"@,
        r.token@ == token@,
        r.pairs() == seq![("channel"@, channel@)] + seq![("name"@, name@)],
{
    let mut params = no_params();
    push_text(&mut params, "channel", channel);
    push_text(&mut params, "name", name);
    let r = request("channels.rename", token, params);
    assert(r.pairs() =~= seq![("channel"@, channel@)] + seq![("name"@, name@)]);
    r
}

#[derive(Clone, Debug)]
pub struct AbridgedChannel {
    pub id: String,
    pub is_channel: bool,
    pub name: String,
    pub created: i32,
}

impl FromJson for AbridgedChannel {
    open spec fn decoded_from(&self, j: Json) -> bool {
        &&& j is Object
        &&& self.id.decoded_from(member(j, "id"@))
        &&& self.is_channel.decoded_from(member(j, "is_channel"@))
        &&& self.name.decoded_from(member(j, "name"@))
        &&& self.created.decoded_from(member(j, "created"@))
    }

    open spec fn failure(j: Json) -> DecodeFailure {
        if !(j is Object) {
            DecodeFailure::Malformed
        } else if !decodable::<String>(member(j, "id"@)) {
            <String as FromJson>::failure(member(j, "id"@))
        } else if !decodable::<bool>(member(j, "is_channel"@)) {
            <bool as FromJson>::failure(member(j, "is_channel"@))
        } else if !decodable::<String>(member(j, "name"@)) {
            <String as FromJson>::failure(member(j, "name"@))
        } else if !decodable::<i32>(member(j, "created"@)) {
            <i32 as FromJson>::failure(member(j, "created"@))
        } else {
            DecodeFailure::Malformed
        }
    }

    fn from_json(j: &Json) -> (r: Result<Self, DecodeError>) {
        if !j.is_object() {
            return Err(DecodeError::Malformed);
        }
        let id = read_member::<String>(j, "id")?;
        let is_channel = read_member::<bool>(j, "is_channel")?;
        let name = read_member::<String>(j, "name")?;
        let created = read_member::<i32>(j, "created")?;
        Ok(AbridgedChannel { id, is_channel, name, created })
    }
}

/// A `AbridgedChannel` read out of a JSON value: the value is an object and each field
/// holds the member of the same name (`null` for an absent optional one).
pub proof fn lemma_abridged_channel_members(j: Json, x: AbridgedChannel)
    requires
        x.decoded_from(j),
    ensures
        j is Object,
        member_text(j, "id"@) == Some(x.id@),
        member(j, "is_channel"@) == Json::Bool(x.is_channel),
        member_text(j, "name"@) == Some(x.name@),
        member(j, "created"@) == Json::Int(x.created as i128),
{
}

#[derive(Clone, Debug)]
pub struct RenameResponse {
    pub channel: AbridgedChannel,
}

impl FromJson for RenameResponse {
    open spec fn decoded_from(&self, j: Json) -> bool {
        &&& j is Object
        &&& self.channel.decoded_from(member(j, "channel"@))
    }

    open spec fn failure(j: Json) -> DecodeFailure {
        if !(j is Object) {
            DecodeFailure::Malformed
        } else if !decodable::<AbridgedChannel>(member(j, "channel"@)) {
            <AbridgedChannel as FromJson>::failure(member(j, "channel"@))
        } else {
            DecodeFailure::Malformed
        }
    }

    fn from_json(j: &Json) -> (r: Result<Self, DecodeError>) {
        if !j.is_object() {
            return Err(DecodeError::Malformed);
        }
        let channel = read_member::<AbridgedChannel>(j, "channel")?;
        Ok(RenameResponse { channel })
    }
}

/// A `RenameResponse` read out of a JSON value: the value is an object and each field
/// holds the member of the same name (`null` for an absent optional one).
pub proof fn lemma_rename_response_members(j: Json, x: RenameResponse)
    requires
        x.decoded_from(j),
    ensures
        j is Object,
        x.channel.decoded_from(member(j, "channel"@)),
{
}

/// Sets the purpose for a channel.
///
/// Wraps https://api.slack.com/methods/channels.setPurpose
pub fn set_purpose(token: &str, channel: &str, purpose: &str) -> (r: ApiRequest)
    ensures
        r.method@ == "channels.setPurpose"@,
        r.token@ == token@,
        r.pairs() == seq![("channel"@, channel@)] + seq![("purpose"@, purpose@)],
{
    let mut params = no_params();
    push_text(&mut params, "channel", channel);
    push_text(&mut params, "purpose", purpose);
    let r = request("channels.setPurpose", token, params);
    assert(r.pairs() =~= seq![("channel"@, channel@)] + seq![("purpose"@, purpose@)]);
    r
}

#[derive(Clone, Debug)]
pub struct SetPurposeResponse {
    pub purpose: String,
}

impl FromJson for SetPurposeResponse {
    open spec fn decoded_from(&self, j: Json) -> bool {
        &&& j is Object
        &&& self.purpose.decoded_from(member(j, "purpose"@))
    }

    open spec fn failure(j: Json) -> DecodeFailure {
        if !(j is Object) {
            DecodeFailure::Malformed
        } else if !decodable::<String>(member(j, "purpose"@)) {
            <String as FromJson>::failure(member(j, "purpose"@))
        } else {
            DecodeFailure::Malformed
        }
    }

    fn from_json(j: &Json) -> (r: Result<Self, DecodeError>) {
        if !j.is_object() {
            return Err(DecodeError::Malformed);
        }
        let purpose = read_member::<String>(j, "purpose")?;
        Ok(SetPurposeResponse { purpose })
    }
}

/// A `SetPurposeResponse` read out of a JSON value: the value is an object and each field
/// holds the member of the same name (`null` for an absent optional one).
pub proof fn lemma_set_purpose_response_members(j: Json, x: SetPurposeResponse)
    requires
        x.decoded_from(j),
    ensures
        j is Object,
        member_text(j, "purpose"@) == Some(x.purpose@),
{
}

/// Sets the topic for a channel.
///
/// Wraps https://api.slack.com/methods/channels.setTopic
pub fn set_topic(token: &str, channel: &str, topic: &str) -> (r: ApiRequest)
    ensures
        r.method@ == "channels.setTopic"@,
        r.token@ == token@,
        r.pairs() == seq![("channel"@, channel@)] + seq![("topic"@, topic@)],
{
    let mut params = no_params();
    push_text(&mut params, "channel", channel);
    push_text(&mut params, "topic", topic);
    let r = request("channels.setTopic", token, params);
    assert(r.pairs() =~= seq![("channel"@, channel@)] + seq![("topic"@, topic@)]);
    r
}

#[derive(Clone, Debug)]
pub struct SetTopicResponse {
    pub topic: String,
}

impl FromJson for SetTopicResponse {
    open spec fn decoded_from(&self, j: Json) -> bool {
        &&& j is Object
        &&& self.topic.decoded_from(member(j, "topic"@))
    }

    open spec fn failure(j: Json) -> DecodeFailure {
        if !(j is Object) {
            DecodeFailure::Malformed
        } else if !decodable::<String>(member(j, "topic"@)) {
            <String as FromJson>::failure(member(j, "topic"@))
        } else {
            DecodeFailure::Malformed
        }
    }

    fn from_json(j: &Json) -> (r: Result<Self, DecodeError>) {
        if !j.is_object() {
            return Err(DecodeError::Malformed);
        }
        let topic = read_member::<String>(j, "topic")?;
        Ok(SetTopicResponse { topic })
    }
}

/// A `SetTopicResponse` read out of a JSON value: the value is an object and each field
/// holds the member of the same name (`null` for an absent optional one).
pub proof fn lemma_set_topic_response_members(j: Json, x: SetTopicResponse)
    requires
        x.decoded_from(j),
    ensures
        j is Object,
        member_text(j, "topic"@) == Some(x.topic@),
{
}

/// Unarchives a channel.
///
/// Wraps https://api.slack.com/methods/channels.unarchive
pub fn unarchive(token: &str, channel: &str) -> (r: ApiRequest)
    ensures
        r.method@ == "channels.unarchive"@,
        r.token@ == token@,
        r.pairs() == seq![("channel"@, channel@)],
{
    let mut params = no_params();
    push_text(&mut params, "channel", channel);
    let r = request("channels.unarchive", token, params);
    assert(r.pairs() =~= seq![("channel"@, channel@)]);
    r
}

#[derive(Clone, Debug)]
pub struct UnarchiveResponse;

impl FromJson for UnarchiveResponse {
    open spec fn decoded_from(&self, j: Json) -> bool {
        true
    }

    open spec fn failure(j: Json) -> DecodeFailure {
        DecodeFailure::Malformed
    }

    fn from_json(j: &Json) -> (r: Result<Self, DecodeError>) {
        Ok(UnarchiveResponse)
    }
}

} // verus!
