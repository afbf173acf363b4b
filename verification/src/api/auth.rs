//! Checks authentication & identity.
//!
//! For more information, see [Slack's API
//! documentation](https://api.slack.com/methods).
use vstd::prelude::*;

use super::{ApiRequest, no_params, request};
use crate::json::{read_member, member, DecodeError, FromJson, Json, decodable, DecodeFailure, member_text};

verus! {

/// Checks authentication & identity.
///
/// Wraps https://api.slack.com/methods/auth.test
pub fn test(token: &str) -> (r: ApiRequest)
    ensures
        r.method@ == "auth.test"@,
        r.token@ == token@,
        r.pairs() == Seq::<(Seq<char>, Seq<char>)>::empty(),
{
    let mut params = no_params();
    let r = request("auth.test", token, params);
    assert(r.pairs() =~= Seq::<(Seq<char>, Seq<char>)>::empty());
    r
}

#[derive(Clone, Debug)]
pub struct TestResponse {
    pub url: String,
    pub team: String,
    pub user: String,
    pub team_id: String,
    pub user_id: String,
}

impl FromJson for TestResponse {
    open spec fn decoded_from(&self, j: Json) -> bool {
        &&& j is Object
        &&& self.url.decoded_from(member(j, "url"@))
        &&& self.team.decoded_from(member(j, "team"@))
        &&& self.user.decoded_from(member(j, "user"@))
        &&& self.team_id.decoded_from(member(j, "team_id"@))
        &&& self.user_id.decoded_from(member(j, "user_id"@))
    }

    open spec fn failure(j: Json) -> DecodeFailure {
        if !(j is Object) {
            DecodeFailure::Malformed
        } else if !decodable::<String>(member(j, "url"@)) {
            <String as FromJson>::failure(member(j, "url"@))
        } else if !decodable::<String>(member(j, "team"@)) {
            <String as FromJson>::failure(member(j, "team"@))
        } else if !decodable::<String>(member(j, "user"@)) {
            <String as FromJson>::failure(member(j, "user"@))
        } else if !decodable::<String>(member(j, "team_id"@)) {
            <String as FromJson>::failure(member(j, "team_id"@))
        } else if !decodable::<String>(member(j, "user_id"@)) {
            <String as FromJson>::failure(member(j, "user_id"@))
        } else {
            DecodeFailure::Malformed
        }
    }

    fn from_json(j: &Json) -> (r: Result<Self, DecodeError>) {
        if !j.is_object() {
            return Err(DecodeError::Malformed);
        }
        let url = read_member::<String>(j, "url")?;
        let team = read_member::<String>(j, "team")?;
        let user = read_member::<String>(j, "user")?;
        let team_id = read_member::<String>(j, "team_id")?;
        let user_id = read_member::<String>(j, "user_id")?;
        Ok(TestResponse { url, team, user, team_id, user_id })
    }
}

/// A `TestResponse` read out of a JSON value: the value is an object and each field
/// holds the member of the same name (`null` for an absent optional one).
pub proof fn lemma_test_response_members(j: Json, x: TestResponse)
    requires
        x.decoded_from(j),
    ensures
        j is Object,
        member_text(j, "url"@) == Some(x.url@),
        member_text(j, "team"@) == Some(x.team@),
        member_text(j, "user"@) == Some(x.user@),
        member_text(j, "team_id"@) == Some(x.team_id@),
        member_text(j, "user_id"@) == Some(x.user_id@),
{
}

} // verus!
