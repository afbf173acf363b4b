//! For more information, see [Slack's API
//! documentation](https://api.slack.com/methods).
use vstd::prelude::*;

use super::{ApiRequest, choice_pair, no_params, push_opt_choice, request};
use crate::json::{decodable, read_member, member, DecodeError, FromJson, Json, DecodeFailure, member_text};
use crate::string_map::StringMap;

verus! {

/// Starts a Real Time Messaging session.
///
/// Wraps https://api.slack.com/methods/rtm.start
pub fn start(
    token: &str,
    simple_latest: Option<bool>,
    no_unreads: Option<bool>,
) -> (r: ApiRequest)
    ensures
        r.method@ == "rtm.start"@,
        r.token@ == token@,
        r.pairs() == choice_pair("simple_latest"@, simple_latest, "1"@, "0"@)
            + choice_pair("no_unreads"@, no_unreads, "1"@, "0"@),
{
    let mut params = no_params();
    push_opt_choice(&mut params, "simple_latest", simple_latest, "1", "0");
    push_opt_choice(&mut params, "no_unreads", no_unreads, "1", "0");
    let r = request("rtm.start", token, params);
    assert(r.pairs() =~= choice_pair("simple_latest"@, simple_latest, "1"@, "0"@)
        + choice_pair("no_unreads"@, no_unreads, "1"@, "0"@));
    r
}

#[derive(Clone, Debug)]
pub struct Bot {
    pub id: String,
    pub deleted: Option<bool>,
    pub name: String,
    pub icons: Option<StringMap>,
}

impl FromJson for Bot {
    open spec fn decoded_from(&self, j: Json) -> bool {
        &&& j is Object
        &&& self.id.decoded_from(member(j, "id"@))
        &&& self.deleted.decoded_from(member(j, "deleted"@))
        &&& self.name.decoded_from(member(j, "name"@))
        &&& self.icons.decoded_from(member(j, "icons"@))
    }

    open spec fn failure(j: Json) -> DecodeFailure {
        if !(j is Object) {
            DecodeFailure::Malformed
        } else if !decodable::<String>(member(j, "id"@)) {
            <String as FromJson>::failure(member(j, "id"@))
        } else if !decodable::<Option<bool>>(member(j, "deleted"@)) {
            <Option<bool> as FromJson>::failure(member(j, "deleted"@))
        } else if !decodable::<String>(member(j, "name"@)) {
            <String as FromJson>::failure(member(j, "name"@))
        } else if !decodable::<Option<StringMap>>(member(j, "icons"@)) {
            <Option<StringMap> as FromJson>::failure(member(j, "icons"@))
        } else {
            DecodeFailure::Malformed
        }
    }

    fn from_json(j: &Json) -> (r: Result<Self, DecodeError>) {
        if !j.is_object() {
            return Err(DecodeError::Malformed);
        }
        let id = read_member::<String>(j, "id")?;
        let deleted = read_member::<Option<bool>>(j, "deleted")?;
        let name = read_member::<String>(j, "name")?;
        let icons = read_member::<Option<StringMap>>(j, "icons")?;
        Ok(Bot { id, deleted, name, icons })
    }
}

/// A `Bot` read out of a JSON value: the value is an object and each field
/// holds the member of the same name (`null` for an absent optional one).
pub proof fn lemma_bot_members(j: Json, x: Bot)
    requires
        x.decoded_from(j),
    ensures
        j is Object,
        member_text(j, "id"@) == Some(x.id@),
        member(j, "deleted"@) == (match x.deleted { Some(b) => Json::Bool(b), None => Json::Null }),
        member_text(j, "name"@) == Some(x.name@),
        x.icons.decoded_from(member(j, "icons"@)),
{
}

#[derive(Clone, Debug)]
pub struct SelfData {
    pub id: String,
    pub name: String,
    pub created: i64,
    pub manual_presence: String,
}

impl FromJson for SelfData {
    open spec fn decoded_from(&self, j: Json) -> bool {
        &&& j is Object
        &&& self.id.decoded_from(member(j, "id"@))
        &&& self.name.decoded_from(member(j, "name"@))
        &&& self.created.decoded_from(member(j, "created"@))
        &&& self.manual_presence.decoded_from(member(j, "manual_presence"@))
    }

    open spec fn failure(j: Json) -> DecodeFailure {
        if !(j is Object) {
            DecodeFailure::Malformed
        } else if !decodable::<String>(member(j, "id"@)) {
            <String as FromJson>::failure(member(j, "id"@))
        } else if !decodable::<String>(member(j, "name"@)) {
            <String as FromJson>::failure(member(j, "name"@))
        } else if !decodable::<i64>(member(j, "created"@)) {
            <i64 as FromJson>::failure(member(j, "created"@))
        } else if !decodable::<String>(member(j, "manual_presence"@)) {
            <String as FromJson>::failure(member(j, "manual_presence"@))
        } else {
            DecodeFailure::Malformed
        }
    }

    fn from_json(j: &Json) -> (r: Result<Self, DecodeError>) {
        if !j.is_object() {
            return Err(DecodeError::Malformed);
        }
        let id = read_member::<String>(j, "id")?;
        let name = read_member::<String>(j, "name")?;
        let created = read_member::<i64>(j, "created")?;
        let manual_presence = read_member::<String>(j, "manual_presence")?;
        Ok(SelfData { id, name, created, manual_presence })
    }
}

/// A `SelfData` read out of a JSON value: the value is an object and each field
/// holds the member of the same name (`null` for an absent optional one).
pub proof fn lemma_self_data_members(j: Json, x: SelfData)
    requires
        x.decoded_from(j),
    ensures
        j is Object,
        member_text(j, "id"@) == Some(x.id@),
        member_text(j, "name"@) == Some(x.name@),
        member(j, "created"@) == Json::Int(x.created as i128),
        member_text(j, "manual_presence"@) == Some(x.manual_presence@),
{
}

#[derive(Clone, Debug)]
pub struct StartResponse {
    pub url: String,
    pub self_data: SelfData,
    pub team: super::Team,
    pub users: Vec<super::User>,
    pub channels: Vec<super::Channel>,
    pub groups: Vec<super::Group>,
    pub ims: Vec<super::Im>,
    pub bots: Vec<Bot>,
}

impl FromJson for StartResponse {
    open spec fn decoded_from(&self, j: Json) -> bool {
        &&& j is Object
        &&& self.url.decoded_from(member(j, "url"@))
        &&& self.self_data.decoded_from(member(j, "self"@))
        &&& self.team.decoded_from(member(j, "team"@))
        &&& self.users.decoded_from(member(j, "users"@))
        &&& self.channels.decoded_from(member(j, "channels"@))
        &&& self.groups.decoded_from(member(j, "groups"@))
        &&& self.ims.decoded_from(member(j, "ims"@))
        &&& self.bots.decoded_from(member(j, "bots"@))
    }

    open spec fn failure(j: Json) -> DecodeFailure {
        if !(j is Object) {
            DecodeFailure::Malformed
        } else if !decodable::<String>(member(j, "url"@)) {
            <String as FromJson>::failure(member(j, "url"@))
        } else if !decodable::<SelfData>(member(j, "self"@)) {
            <SelfData as FromJson>::failure(member(j, "self"@))
        } else if !decodable::<super::Team>(member(j, "team"@)) {
            <super::Team as FromJson>::failure(member(j, "team"@))
        } else if !decodable::<Vec<super::User>>(member(j, "users"@)) {
            <Vec<super::User> as FromJson>::failure(member(j, "users"@))
        } else if !decodable::<Vec<super::Channel>>(member(j, "channels"@)) {
            <Vec<super::Channel> as FromJson>::failure(member(j, "channels"@))
        } else if !decodable::<Vec<super::Group>>(member(j, "groups"@)) {
            <Vec<super::Group> as FromJson>::failure(member(j, "groups"@))
        } else if !decodable::<Vec<super::Im>>(member(j, "ims"@)) {
            <Vec<super::Im> as FromJson>::failure(member(j, "ims"@))
        } else if !decodable::<Vec<Bot>>(member(j, "bots"@)) {
            <Vec<Bot> as FromJson>::failure(member(j, "bots"@))
        } else {
            DecodeFailure::Malformed
        }
    }

    fn from_json(j: &Json) -> (r: Result<Self, DecodeError>) {
        if !j.is_object() {
            return Err(DecodeError::Malformed);
        }
        let url = read_member::<String>(j, "url")?;
        let self_data = read_member::<SelfData>(j, "self")?;
        let team = read_member::<super::Team>(j, "team")?;
        let users = read_member::<Vec<super::User>>(j, "users")?;
        let channels = read_member::<Vec<super::Channel>>(j, "channels")?;
        let groups = read_member::<Vec<super::Group>>(j, "groups")?;
        let ims = read_member::<Vec<super::Im>>(j, "ims")?;
        let bots = read_member::<Vec<Bot>>(j, "bots")?;
        Ok(StartResponse { url, self_data, team, users, channels, groups, ims, bots })
    }
}

/// A `StartResponse` read out of a JSON value: the value is an object and each field
/// holds the member of the same name (`null` for an absent optional one).
pub proof fn lemma_start_response_members(j: Json, x: StartResponse)
    requires
        x.decoded_from(j),
    ensures
        j is Object,
        member_text(j, "url"@) == Some(x.url@),
        x.self_data.decoded_from(member(j, "self"@)),
        x.team.decoded_from(member(j, "team"@)),
        x.users.decoded_from(member(j, "users"@)),
        x.channels.decoded_from(member(j, "channels"@)),
        x.groups.decoded_from(member(j, "groups"@)),
        x.ims.decoded_from(member(j, "ims"@)),
        x.bots.decoded_from(member(j, "bots"@)),
{
}

/// An `rtm.start` answer is read out of a JSON value exactly when the value
/// is an object whose members `url`, `self`, `team`, `users`, `channels`,
/// `groups`, `ims` and `bots` are all present and each is read as its field's
/// type; no other member counts, and the field `self_data` is read from
/// `self` alone.
pub proof fn lemma_start_response_decodable(j: Json)
    ensures
        decodable::<StartResponse>(j) <==> {
            &&& j is Object
            &&& decodable::<String>(member(j, "url"@))
            &&& decodable::<SelfData>(member(j, "self"@))
            &&& decodable::<super::Team>(member(j, "team"@))
            &&& decodable::<Vec<super::User>>(member(j, "users"@))
            &&& decodable::<Vec<super::Channel>>(member(j, "channels"@))
            &&& decodable::<Vec<super::Group>>(member(j, "groups"@))
            &&& decodable::<Vec<super::Im>>(member(j, "ims"@))
            &&& decodable::<Vec<Bot>>(member(j, "bots"@))
        },
        decodable::<StartResponse>(j) ==> {
            &&& !(member(j, "url"@) is Null)
            &&& !(member(j, "self"@) is Null)
            &&& !(member(j, "team"@) is Null)
            &&& !(member(j, "users"@) is Null)
            &&& !(member(j, "channels"@) is Null)
            &&& !(member(j, "groups"@) is Null)
            &&& !(member(j, "ims"@) is Null)
            &&& !(member(j, "bots"@) is Null)
        },
{
    if decodable::<StartResponse>(j) {
        let s = choose|s: StartResponse| s.decoded_from(j);
        assert(s.url.decoded_from(member(j, "url"@)));
        assert(s.self_data.decoded_from(member(j, "self"@)));
        assert(s.team.decoded_from(member(j, "team"@)));
        assert(s.users.decoded_from(member(j, "users"@)));
        assert(s.channels.decoded_from(member(j, "channels"@)));
        assert(s.groups.decoded_from(member(j, "groups"@)));
        assert(s.ims.decoded_from(member(j, "ims"@)));
        assert(s.bots.decoded_from(member(j, "bots"@)));
    }
    if {
        &&& j is Object
        &&& decodable::<String>(member(j, "url"@))
        &&& decodable::<SelfData>(member(j, "self"@))
        &&& decodable::<super::Team>(member(j, "team"@))
        &&& decodable::<Vec<super::User>>(member(j, "users"@))
        &&& decodable::<Vec<super::Channel>>(member(j, "channels"@))
        &&& decodable::<Vec<super::Group>>(member(j, "groups"@))
        &&& decodable::<Vec<super::Im>>(member(j, "ims"@))
        &&& decodable::<Vec<Bot>>(member(j, "bots"@))
    } {
        let s = StartResponse {
            url: choose|x: String| x.decoded_from(member(j, "url"@)),
            self_data: choose|x: SelfData| x.decoded_from(member(j, "self"@)),
            team: choose|x: super::Team| x.decoded_from(member(j, "team"@)),
            users: choose|x: Vec<super::User>| x.decoded_from(member(j, "users"@)),
            channels: choose|x: Vec<super::Channel>| x.decoded_from(member(j, "channels"@)),
            groups: choose|x: Vec<super::Group>| x.decoded_from(member(j, "groups"@)),
            ims: choose|x: Vec<super::Im>| x.decoded_from(member(j, "ims"@)),
            bots: choose|x: Vec<Bot>| x.decoded_from(member(j, "bots"@)),
        };
        assert(s.decoded_from(j));
    }
}

} // verus!
