//! For more information, see [Slack's API
//! documentation](https://api.slack.com/methods).
use vstd::prelude::*;

use super::{ApiRequest, no_params, number_pair, push_opt_number, request};
use crate::json::{read_member, member, DecodeError, FromJson, Json, decodable, DecodeFailure, member_text};

verus! {

/// Gets the access logs for the current team.
///
/// Wraps https://api.slack.com/methods/team.accessLogs
pub fn access_logs(token: &str, count: Option<u32>, page: Option<u32>) -> (r: ApiRequest)
    ensures
        r.method@ == "team.accessLogs"@,
        r.token@ == token@,
        r.pairs() == number_pair("count"@, count) + number_pair("page"@, page),
{
    let mut params = no_params();
    push_opt_number(&mut params, "count", count);
    push_opt_number(&mut params, "page", page);
    let r = request("team.accessLogs", token, params);
    assert(r.pairs() =~= number_pair("count"@, count) + number_pair("page"@, page));
    r
}

#[derive(Clone, Debug)]
pub struct LoginInfo {
    pub user_id: String,
    pub username: String,
    pub date_first: u32,
    pub date_last: u32,
    pub count: u32,
    pub ip: String,
    pub user_agent: String,
    pub isp: String,
    pub country: String,
    pub region: String,
}

impl FromJson for LoginInfo {
    open spec fn decoded_from(&self, j: Json) -> bool {
        &&& j is Object
        &&& self.user_id.decoded_from(member(j, "user_id"@))
        &&& self.username.decoded_from(member(j, "username"@))
        &&& self.date_first.decoded_from(member(j, "date_first"@))
        &&& self.date_last.decoded_from(member(j, "date_last"@))
        &&& self.count.decoded_from(member(j, "count"@))
        &&& self.ip.decoded_from(member(j, "ip"@))
        &&& self.user_agent.decoded_from(member(j, "user_agent"@))
        &&& self.isp.decoded_from(member(j, "isp"@))
        &&& self.country.decoded_from(member(j, "country"@))
        &&& self.region.decoded_from(member(j, "region"@))
    }

    open spec fn failure(j: Json) -> DecodeFailure {
        if !(j is Object) {
            DecodeFailure::Malformed
        } else if !decodable::<String>(member(j, "user_id"@)) {
            <String as FromJson>::failure(member(j, "user_id"@))
        } else if !decodable::<String>(member(j, "username"@)) {
            <String as FromJson>::failure(member(j, "username"@))
        } else if !decodable::<u32>(member(j, "date_first"@)) {
            <u32 as FromJson>::failure(member(j, "date_first"@))
        } else if !decodable::<u32>(member(j, "date_last"@)) {
            <u32 as FromJson>::failure(member(j, "date_last"@))
        } else if !decodable::<u32>(member(j, "count"@)) {
            <u32 as FromJson>::failure(member(j, "count"@))
        } else if !decodable::<String>(member(j, "ip"@)) {
            <String as FromJson>::failure(member(j, "ip"@))
        } else if !decodable::<String>(member(j, "user_agent"@)) {
            <String as FromJson>::failure(member(j, "user_agent"@))
        } else if !decodable::<String>(member(j, "isp"@)) {
            <String as FromJson>::failure(member(j, "isp"@))
        } else if !decodable::<String>(member(j, "country"@)) {
            <String as FromJson>::failure(member(j, "country"@))
        } else if !decodable::<String>(member(j, "region"@)) {
            <String as FromJson>::failure(member(j, "region"@))
        } else {
            DecodeFailure::Malformed
        }
    }

    fn from_json(j: &Json) -> (r: Result<Self, DecodeError>) {
        if !j.is_object() {
            return Err(DecodeError::Malformed);
        }
        let user_id = read_member::<String>(j, "user_id")?;
        let username = read_member::<String>(j, "username")?;
        let date_first = read_member::<u32>(j, "date_first")?;
        let date_last = read_member::<u32>(j, "date_last")?;
        let count = read_member::<u32>(j, "count")?;
        let ip = read_member::<String>(j, "ip")?;
        let user_agent = read_member::<String>(j, "user_agent")?;
        let isp = read_member::<String>(j, "isp")?;
        let country = read_member::<String>(j, "country")?;
        let region = read_member::<String>(j, "region")?;
        Ok(LoginInfo {
            user_id,
            username,
            date_first,
            date_last,
            count,
            ip,
            user_agent,
            isp,
            country,
            region,
        })
    }
}

/// A `LoginInfo` read out of a JSON value: the value is an object and each field
/// holds the member of the same name (`null` for an absent optional one).
pub proof fn lemma_login_info_members(j: Json, x: LoginInfo)
    requires
        x.decoded_from(j),
    ensures
        j is Object,
        member_text(j, "user_id"@) == Some(x.user_id@),
        member_text(j, "username"@) == Some(x.username@),
        member(j, "date_first"@) == Json::Int(x.date_first as i128),
        member(j, "date_last"@) == Json::Int(x.date_last as i128),
        member(j, "count"@) == Json::Int(x.count as i128),
        member_text(j, "ip"@) == Some(x.ip@),
        member_text(j, "user_agent"@) == Some(x.user_agent@),
        member_text(j, "isp"@) == Some(x.isp@),
        member_text(j, "country"@) == Some(x.country@),
        member_text(j, "region"@) == Some(x.region@),
{
}

#[derive(Clone, Debug)]
pub struct AccessLogsResponse {
    pub logins: Vec<LoginInfo>,
    pub paging: super::Pagination,
}

impl FromJson for AccessLogsResponse {
    open spec fn decoded_from(&self, j: Json) -> bool {
        &&& j is Object
        &&& self.logins.decoded_from(member(j, "logins"@))
        &&& self.paging.decoded_from(member(j, "paging"@))
    }

    open spec fn failure(j: Json) -> DecodeFailure {
        if !(j is Object) {
            DecodeFailure::Malformed
        } else if !decodable::<Vec<LoginInfo>>(member(j, "logins"@)) {
            <Vec<LoginInfo> as FromJson>::failure(member(j, "logins"@))
        } else if !decodable::<super::Pagination>(member(j, "paging"@)) {
            <super::Pagination as FromJson>::failure(member(j, "paging"@))
        } else {
            DecodeFailure::Malformed
        }
    }

    fn from_json(j: &Json) -> (r: Result<Self, DecodeError>) {
        if !j.is_object() {
            return Err(DecodeError::Malformed);
        }
        let logins = read_member::<Vec<LoginInfo>>(j, "logins")?;
        let paging = read_member::<super::Pagination>(j, "paging")?;
        Ok(AccessLogsResponse { logins, paging })
    }
}

/// A `AccessLogsResponse` read out of a JSON value: the value is an object and each field
/// holds the member of the same name (`null` for an absent optional one).
pub proof fn lemma_access_logs_response_members(j: Json, x: AccessLogsResponse)
    requires
        x.decoded_from(j),
    ensures
        j is Object,
        x.logins.decoded_from(member(j, "logins"@)),
        x.paging.decoded_from(member(j, "paging"@)),
{
}

/// Gets information about the current team.
///
/// Wraps https://api.slack.com/methods/team.info
pub fn info(token: &str) -> (r: ApiRequest)
    ensures
        r.method@ == "team.info"@,
        r.token@ == token@,
        r.pairs() == Seq::<(Seq<char>, Seq<char>)>::empty(),
{
    let mut params = no_params();
    let r = request("team.info", token, params);
    assert(r.pairs() =~= Seq::<(Seq<char>, Seq<char>)>::empty());
    r
}

#[derive(Clone, Debug)]
pub struct IconInfo {
    pub image_34: String,
    pub image_44: String,
    pub image_68: String,
    pub image_88: String,
    pub image_102: String,
    pub image_132: String,
    pub image_default: bool,
}

impl FromJson for IconInfo {
    open spec fn decoded_from(&self, j: Json) -> bool {
        &&& j is Object
        &&& self.image_34.decoded_from(member(j, "image_34"@))
        &&& self.image_44.decoded_from(member(j, "image_44"@))
        &&& self.image_68.decoded_from(member(j, "image_68"@))
        &&& self.image_88.decoded_from(member(j, "image_88"@))
        &&& self.image_102.decoded_from(member(j, "image_102"@))
        &&& self.image_132.decoded_from(member(j, "image_132"@))
        &&& self.image_default.decoded_from(member(j, "image_default"@))
    }

    open spec fn failure(j: Json) -> DecodeFailure {
        if !(j is Object) {
            DecodeFailure::Malformed
        } else if !decodable::<String>(member(j, "image_34"@)) {
            <String as FromJson>::failure(member(j, "image_34"@))
        } else if !decodable::<String>(member(j, "image_44"@)) {
            <String as FromJson>::failure(member(j, "image_44"@))
        } else if !decodable::<String>(member(j, "image_68"@)) {
            <String as FromJson>::failure(member(j, "image_68"@))
        } else if !decodable::<String>(member(j, "image_88"@)) {
            <String as FromJson>::failure(member(j, "image_88"@))
        } else if !decodable::<String>(member(j, "image_102"@)) {
            <String as FromJson>::failure(member(j, "image_102"@))
        } else if !decodable::<String>(member(j, "image_132"@)) {
            <String as FromJson>::failure(member(j, "image_132"@))
        } else if !decodable::<bool>(member(j, "image_default"@)) {
            <bool as FromJson>::failure(member(j, "image_default"@))
        } else {
            DecodeFailure::Malformed
        }
    }

    fn from_json(j: &Json) -> (r: Result<Self, DecodeError>) {
        if !j.is_object() {
            return Err(DecodeError::Malformed);
        }
        let image_34 = read_member::<String>(j, "image_34")?;
        let image_44 = read_member::<String>(j, "image_44")?;
        let image_68 = read_member::<String>(j, "image_68")?;
        let image_88 = read_member::<String>(j, "image_88")?;
        let image_102 = read_member::<String>(j, "image_102")?;
        let image_132 = read_member::<String>(j, "image_132")?;
        let image_default = read_member::<bool>(j, "image_default")?;
        Ok(IconInfo { image_34, image_44, image_68, image_88, image_102, image_132, image_default })
    }
}

/// A `IconInfo` read out of a JSON value: the value is an object and each field
/// holds the member of the same name (`null` for an absent optional one).
pub proof fn lemma_icon_info_members(j: Json, x: IconInfo)
    requires
        x.decoded_from(j),
    ensures
        j is Object,
        member_text(j, "image_34"@) == Some(x.image_34@),
        member_text(j, "image_44"@) == Some(x.image_44@),
        member_text(j, "image_68"@) == Some(x.image_68@),
        member_text(j, "image_88"@) == Some(x.image_88@),
        member_text(j, "image_102"@) == Some(x.image_102@),
        member_text(j, "image_132"@) == Some(x.image_132@),
        member(j, "image_default"@) == Json::Bool(x.image_default),
{
}

#[derive(Clone, Debug)]
pub struct TeamInfo {
    pub id: String,
    pub name: String,
    pub domain: String,
    pub email_domain: String,
    pub icon: IconInfo,
}

impl FromJson for TeamInfo {
    open spec fn decoded_from(&self, j: Json) -> bool {
        &&& j is Object
        &&& self.id.decoded_from(member(j, "id"@))
        &&& self.name.decoded_from(member(j, "name"@))
        &&& self.domain.decoded_from(member(j, "domain"@))
        &&& self.email_domain.decoded_from(member(j, "email_domain"@))
        &&& self.icon.decoded_from(member(j, "icon"@))
    }

    open spec fn failure(j: Json) -> DecodeFailure {
        if !(j is Object) {
            DecodeFailure::Malformed
        } else if !decodable::<String>(member(j, "id"@)) {
            <String as FromJson>::failure(member(j, "id"@))
        } else if !decodable::<String>(member(j, "name"@)) {
            <String as FromJson>::failure(member(j, "name"@))
        } else if !decodable::<String>(member(j, "domain"@)) {
            <String as FromJson>::failure(member(j, "domain"@))
        } else if !decodable::<String>(member(j, "email_domain"@)) {
            <String as FromJson>::failure(member(j, "email_domain"@))
        } else if !decodable::<IconInfo>(member(j, "icon"@)) {
            <IconInfo as FromJson>::failure(member(j, "icon"@))
        } else {
            DecodeFailure::Malformed
        }
    }

    fn from_json(j: &Json) -> (r: Result<Self, DecodeError>) {
        if !j.is_object() {
            return Err(DecodeError::Malformed);
        }
        let id = read_member::<String>(j, "id")?;
        let name = read_member::<String>(j, "name")?;
        let domain = read_member::<String>(j, "domain")?;
        let email_domain = read_member::<String>(j, "email_domain")?;
        let icon = read_member::<IconInfo>(j, "icon")?;
        Ok(TeamInfo { id, name, domain, email_domain, icon })
    }
}

/// A `TeamInfo` read out of a JSON value: the value is an object and each field
/// holds the member of the same name (`null` for an absent optional one).
pub proof fn lemma_team_info_members(j: Json, x: TeamInfo)
    requires
        x.decoded_from(j),
    ensures
        j is Object,
        member_text(j, "id"@) == Some(x.id@),
        member_text(j, "name"@) == Some(x.name@),
        member_text(j, "domain"@) == Some(x.domain@),
        member_text(j, "email_domain"@) == Some(x.email_domain@),
        x.icon.decoded_from(member(j, "icon"@)),
{
}

#[derive(Clone, Debug)]
pub struct InfoResponse {
    pub team: TeamInfo,
}

impl FromJson for InfoResponse {
    open spec fn decoded_from(&self, j: Json) -> bool {
        &&& j is Object
        &&& self.team.decoded_from(member(j, "team"@))
    }

    open spec fn failure(j: Json) -> DecodeFailure {
        if !(j is Object) {
            DecodeFailure::Malformed
        } else if !decodable::<TeamInfo>(member(j, "team"@)) {
            <TeamInfo as FromJson>::failure(member(j, "team"@))
        } else {
            DecodeFailure::Malformed
        }
    }

    fn from_json(j: &Json) -> (r: Result<Self, DecodeError>) {
        if !j.is_object() {
            return Err(DecodeError::Malformed);
        }
        let team = read_member::<TeamInfo>(j, "team")?;
        Ok(InfoResponse { team })
    }
}

/// A `InfoResponse` read out of a JSON value: the value is an object and each field
/// holds the member of the same name (`null` for an absent optional one).
pub proof fn lemma_info_response_members(j: Json, x: InfoResponse)
    requires
        x.decoded_from(j),
    ensures
        j is Object,
        x.team.decoded_from(member(j, "team"@)),
{
}

} // verus!
