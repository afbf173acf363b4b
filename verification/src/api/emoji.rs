//! For more information, see [Slack's API documentation](https://api.slack.com/methods).
use vstd::prelude::*;

use super::{ApiRequest, no_params, request};
use crate::json::{read_member, member, DecodeError, FromJson, Json, decodable, DecodeFailure, member_text};
use crate::string_map::StringMap;

verus! {

/// Lists custom emoji for a team.
///
/// Wraps https://api.slack.com/methods/emoji.list
pub fn list(token: &str) -> (r: ApiRequest)
    ensures
        r.method@ == "emoji.list"@,
        r.token@ == token@,
        r.pairs() == Seq::<(Seq<char>, Seq<char>)>::empty(),
{
    let mut params = no_params();
    let r = request("emoji.list", token, params);
    assert(r.pairs() =~= Seq::<(Seq<char>, Seq<char>)>::empty());
    r
}

#[derive(Clone, Debug)]
pub struct ListResponse {
    pub emoji: StringMap,
}

impl FromJson for ListResponse {
    open spec fn decoded_from(&self, j: Json) -> bool {
        &&& j is Object
        &&& self.emoji.decoded_from(member(j, "emoji"@))
    }

    open spec fn failure(j: Json) -> DecodeFailure {
        if !(j is Object) {
            DecodeFailure::Malformed
        } else if !decodable::<StringMap>(member(j, "emoji"@)) {
            <StringMap as FromJson>::failure(member(j, "emoji"@))
        } else {
            DecodeFailure::Malformed
        }
    }

    fn from_json(j: &Json) -> (r: Result<Self, DecodeError>) {
        if !j.is_object() {
            return Err(DecodeError::Malformed);
        }
        let emoji = read_member::<StringMap>(j, "emoji")?;
        Ok(ListResponse { emoji })
    }
}

/// A `ListResponse` read out of a JSON value: the value is an object and each field
/// holds the member of the same name (`null` for an absent optional one).
pub proof fn lemma_list_response_members(j: Json, x: ListResponse)
    requires
        x.decoded_from(j),
    ensures
        j is Object,
        x.emoji.decoded_from(member(j, "emoji"@)),
{
}

} // verus!
