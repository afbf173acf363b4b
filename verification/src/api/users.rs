//! Get info on members of your Slack team.
//!
//! For more information, see [Slack's API
//! documentation](https://api.slack.com/methods).
use vstd::prelude::*;

use super::{ApiRequest, choice_pair, no_params, push_opt_choice, push_text, request};
use crate::json::{read_member, member, DecodeError, FromJson, Json, decodable, DecodeFailure, member_text};

verus! {

/// Gets user presence information.
///
/// Wraps https://api.slack.com/methods/users.getPresence
pub fn get_presence(token: &str, user: &str) -> (r: ApiRequest)
    ensures
        r.method@ == "users.getPresence"@,
        r.token@ == token@,
        r.pairs() == seq![("user"@, user@)],
{
    let mut params = no_params();
    push_text(&mut params, "user", user);
    let r = request("users.getPresence", token, params);
    assert(r.pairs() =~= seq![("user"@, user@)]);
    r
}

#[derive(Clone, Debug)]
pub struct GetPresenceResponse {
    pub presence: String,
    pub online: Option<bool>,
    pub auto_away: Option<bool>,
    pub manual_away: Option<bool>,
    pub connection_count: Option<u32>,
    pub last_activity: Option<u32>,
}

impl FromJson for GetPresenceResponse {
    open spec fn decoded_from(&self, j: Json) -> bool {
        &&& j is Object
        &&& self.presence.decoded_from(member(j, "presence"@))
        &&& self.online.decoded_from(member(j, "online"@))
        &&& self.auto_away.decoded_from(member(j, "auto_away"@))
        &&& self.manual_away.decoded_from(member(j, "manual_away"@))
        &&& self.connection_count.decoded_from(member(j, "connection_count"@))
        &&& self.last_activity.decoded_from(member(j, "last_activity"@))
    }

    open spec fn failure(j: Json) -> DecodeFailure {
        if !(j is Object) {
            DecodeFailure::Malformed
        } else if !decodable::<String>(member(j, "presence"@)) {
            <String as FromJson>::failure(member(j, "presence"@))
        } else if !decodable::<Option<bool>>(member(j, "online"@)) {
            <Option<bool> as FromJson>::failure(member(j, "online"@))
        } else if !decodable::<Option<bool>>(member(j, "auto_away"@)) {
            <Option<bool> as FromJson>::failure(member(j, "auto_away"@))
        } else if !decodable::<Option<bool>>(member(j, "manual_away"@)) {
            <Option<bool> as FromJson>::failure(member(j, "manual_away"@))
        } else if !decodable::<Option<u32>>(member(j, "connection_count"@)) {
            <Option<u32> as FromJson>::failure(member(j, "connection_count"@))
        } else if !decodable::<Option<u32>>(member(j, "last_activity"@)) {
            <Option<u32> as FromJson>::failure(member(j, "last_activity"@))
        } else {
            DecodeFailure::Malformed
        }
    }

    fn from_json(j: &Json) -> (r: Result<Self, DecodeError>) {
        if !j.is_object() {
            return Err(DecodeError::Malformed);
        }
        let presence = read_member::<String>(j, "presence")?;
        let online = read_member::<Option<bool>>(j, "online")?;
        let auto_away = read_member::<Option<bool>>(j, "auto_away")?;
        let manual_away = read_member::<Option<bool>>(j, "manual_away")?;
        let connection_count = read_member::<Option<u32>>(j, "connection_count")?;
        let last_activity = read_member::<Option<u32>>(j, "last_activity")?;
        Ok(GetPresenceResponse {
            presence,
            online,
            auto_away,
            manual_away,
            connection_count,
            last_activity,
        })
    }
}

/// A `GetPresenceResponse` read out of a JSON value: the value is an object and each field
/// holds the member of the same name (`null` for an absent optional one).
pub proof fn lemma_get_presence_response_members(j: Json, x: GetPresenceResponse)
    requires
        x.decoded_from(j),
    ensures
        j is Object,
        member_text(j, "presence"@) == Some(x.presence@),
        member(j, "online"@) == (match x.online { Some(b) => Json::Bool(b), None => Json::Null }),
        member(j, "auto_away"@) == (match x.auto_away { Some(b) => Json::Bool(b), None => Json::Null }),
        member(j, "manual_away"@) == (match x.manual_away { Some(b) => Json::Bool(b), None => Json::Null }),
        member(j, "connection_count"@) == (match x.connection_count { Some(n) => Json::Int(n as i128), None => Json::Null }),
        member(j, "last_activity"@) == (match x.last_activity { Some(n) => Json::Int(n as i128), None => Json::Null }),
{
}

/// Gets information about a user.
///
/// Wraps https://api.slack.com/methods/users.info
pub fn info(token: &str, user: &str) -> (r: ApiRequest)
    ensures
        r.method@ == "users.info"@,
        r.token@ == token@,
        r.pairs() == seq![("user"@, user@)],
{
    let mut params = no_params();
    push_text(&mut params, "user", user);
    let r = request("users.info", token, params);
    assert(r.pairs() =~= seq![("user"@, user@)]);
    r
}

#[derive(Clone, Debug)]
pub struct InfoResponse {
    pub user: super::User,
}

impl FromJson for InfoResponse {
    open spec fn decoded_from(&self, j: Json) -> bool {
        &&& j is Object
        &&& self.user.decoded_from(member(j, "user"@))
    }

    open spec fn failure(j: Json) -> DecodeFailure {
        if !(j is Object) {
            DecodeFailure::Malformed
        } else if !decodable::<super::User>(member(j, "user"@)) {
            <super::User as FromJson>::failure(member(j, "user"@))
        } else {
            DecodeFailure::Malformed
        }
    }

    fn from_json(j: &Json) -> (r: Result<Self, DecodeError>) {
        if !j.is_object() {
            return Err(DecodeError::Malformed);
        }
        let user = read_member::<super::User>(j, "user")?;
        Ok(InfoResponse { user })
    }
}

/// A `InfoResponse` read out of a JSON value: the value is an object and each field
/// holds the member of the same name (`null` for an absent optional one).
pub proof fn lemma_info_response_members(j: Json, x: InfoResponse)
    requires
        x.decoded_from(j),
    ensures
        j is Object,
        x.user.decoded_from(member(j, "user"@)),
{
}

/// Lists all users in a Slack team.
///
/// Wraps https://api.slack.com/methods/users.list
pub fn list(token: &str, presence: Option<bool>) -> (r: ApiRequest)
    ensures
        r.method@ == "users.list"@,
        r.token@ == token@,
        r.pairs() == choice_pair("presence"@, presence, "1"@, "0"@),
{
    let mut params = no_params();
    push_opt_choice(&mut params, "presence", presence, "1", "0");
    let r = request("users.list", token, params);
    assert(r.pairs() =~= choice_pair("presence"@, presence, "1"@, "0"@));
    r
}

#[derive(Clone, Debug)]
pub struct ListResponse {
    pub members: Vec<super::User>,
}

impl FromJson for ListResponse {
    open spec fn decoded_from(&self, j: Json) -> bool {
        &&& j is Object
        &&& self.members.decoded_from(member(j, "members"@))
    }

    open spec fn failure(j: Json) -> DecodeFailure {
        if !(j is Object) {
            DecodeFailure::Malformed
        } else if !decodable::<Vec<super::User>>(member(j, "members"@)) {
            <Vec<super::User> as FromJson>::failure(member(j, "members"@))
        } else {
            DecodeFailure::Malformed
        }
    }

    fn from_json(j: &Json) -> (r: Result<Self, DecodeError>) {
        if !j.is_object() {
            return Err(DecodeError::Malformed);
        }
        let members = read_member::<Vec<super::User>>(j, "members")?;
        Ok(ListResponse { members })
    }
}

/// A `ListResponse` read out of a JSON value: the value is an object and each field
/// holds the member of the same name (`null` for an absent optional one).
pub proof fn lemma_list_response_members(j: Json, x: ListResponse)
    requires
        x.decoded_from(j),
    ensures
        j is Object,
        x.members.decoded_from(member(j, "members"@)),
{
}

/// Marks a user as active.
///
/// Wraps https://api.slack.com/methods/users.setActive
pub fn set_active(token: &str) -> (r: ApiRequest)
    ensures
        r.method@ == "users.setActive"@,
        r.token@ == token@,
        r.pairs() == Seq::<(Seq<char>, Seq<char>)>::empty(),
{
    let mut params = no_params();
    let r = request("users.setActive", token, params);
    assert(r.pairs() =~= Seq::<(Seq<char>, Seq<char>)>::empty());
    r
}

#[derive(Clone, Debug)]
pub struct SetActiveResponse;

impl FromJson for SetActiveResponse {
    open spec fn decoded_from(&self, j: Json) -> bool {
        true
    }

    open spec fn failure(j: Json) -> DecodeFailure {
        DecodeFailure::Malformed
    }

    fn from_json(j: &Json) -> (r: Result<Self, DecodeError>) {
        Ok(SetActiveResponse)
    }
}

/// Manually sets user presence.
///
/// Wraps https://api.slack.com/methods/users.setPresence
pub fn set_presence(token: &str, presence: &str) -> (r: ApiRequest)
    ensures
        r.method@ == "users.setPresence"@,
        r.token@ == token@,
        r.pairs() == seq![("presence"@, presence@)],
{
    let mut params = no_params();
    push_text(&mut params, "presence", presence);
    let r = request("users.setPresence", token, params);
    assert(r.pairs() =~= seq![("presence"@, presence@)]);
    r
}

#[derive(Clone, Debug)]
pub struct SetPresenceResponse;

impl FromJson for SetPresenceResponse {
    open spec fn decoded_from(&self, j: Json) -> bool {
        true
    }

    open spec fn failure(j: Json) -> DecodeFailure {
        DecodeFailure::Malformed
    }

    fn from_json(j: &Json) -> (r: Result<Self, DecodeError>) {
        Ok(SetPresenceResponse)
    }
}

} // verus!
