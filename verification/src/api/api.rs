//! Checks API calling code.
//!
//! For more information, see [Slack's API documentation](https://api.slack.com/methods).
use vstd::prelude::*;

use super::{ApiRequest, no_params, request, text_pair};
use crate::json::{read_member, member, DecodeError, FromJson, Json, decodable, DecodeFailure, member_text};
use crate::string_map::{
    StringMap, keys_unique, lemma_pairs_put_each, pairs_map, pairs_put, pairs_put_each, pairs_view, put_pair,
};

verus! {

/// The pairs of the arguments to echo, if any.
pub open spec fn arg_pairs(args: Option<StringMap>) -> Seq<(Seq<char>, Seq<char>)> {
    match args {
        Some(m) => pairs_view(m.entries@),
        None => Seq::empty(),
    }
}

/// Checks API calling code.
///
/// Wraps https://api.slack.com/methods/api.test
///
/// The parameters hold one value per name: `error` when given, then each
/// pair of `args`, a later pair replacing the value of an earlier one of the
/// same name.
pub fn test(token: &str, args: Option<StringMap>, error: Option<&str>) -> (r: ApiRequest)
    ensures
        r.method@ == "api.test"@,
        r.token@ == token@,
        r.pairs() == pairs_put_each(text_pair("error"@, error), arg_pairs(args)),
        keys_unique(r.pairs()),
        r.param_map() == pairs_map(text_pair("error"@, error) + arg_pairs(args)),
{
    let mut params = no_params();
    let ghost before = text_pair("error"@, error);
    match error {
        Some(e) => {
            assert(pairs_put(pairs_view(params@), "error"@, e@) =~= before);
            put_pair(&mut params, "error".to_owned(), e.to_owned());
        },
        None => {
            assert(pairs_view(params@) =~= before);
        },
    }
    let ghost extra = arg_pairs(args);
    match args {
        Some(m) => {
            let mut i: usize = 0;
            assert(extra.take(0) =~= Seq::<(Seq<char>, Seq<char>)>::empty());
            while i < m.entries.len()
                invariant
                    i <= m.entries@.len(),
                    extra == pairs_view(m.entries@),
                    pairs_view(params@) == pairs_put_each(before, extra.take(i as int)),
                decreases m.entries@.len() - i,
            {
                let k = m.entries[i].0.clone();
                let v = m.entries[i].1.clone();
                proof {
                    assert(extra.take(i + 1).drop_last() =~= extra.take(i as int));
                    assert(extra.take(i + 1).last() == (k@, v@));
                }
                put_pair(&mut params, k, v);
                i = i + 1;
            }
            assert(extra.take(m.entries@.len() as int) =~= extra);
        },
        None => {},
    }
    proof {
        lemma_pairs_put_each(before, extra);
    }
    request("api.test", token, params)
}

#[derive(Clone, Debug)]
pub struct ApiTestResponse {
    pub error: Option<String>,
    pub args: Option<StringMap>,
}

impl FromJson for ApiTestResponse {
    open spec fn decoded_from(&self, j: Json) -> bool {
        &&& j is Object
        &&& self.error.decoded_from(member(j, "error"@))
        &&& self.args.decoded_from(member(j, "args"@))
    }

    open spec fn failure(j: Json) -> DecodeFailure {
        if !(j is Object) {
            DecodeFailure::Malformed
        } else if !decodable::<Option<String>>(member(j, "error"@)) {
            <Option<String> as FromJson>::failure(member(j, "error"@))
        } else if !decodable::<Option<StringMap>>(member(j, "args"@)) {
            <Option<StringMap> as FromJson>::failure(member(j, "args"@))
        } else {
            DecodeFailure::Malformed
        }
    }

    fn from_json(j: &Json) -> (r: Result<Self, DecodeError>) {
        if !j.is_object() {
            return Err(DecodeError::Malformed);
        }
        let error = read_member::<Option<String>>(j, "error")?;
        let args = read_member::<Option<StringMap>>(j, "args")?;
        Ok(ApiTestResponse { error, args })
    }
}

/// A `ApiTestResponse` read out of a JSON value: the value is an object and each field
/// holds the member of the same name (`null` for an absent optional one).
pub proof fn lemma_api_test_response_members(j: Json, x: ApiTestResponse)
    requires
        x.decoded_from(j),
    ensures
        j is Object,
        (match x.error { Some(s) => member_text(j, "error"@) == Some(s@), None => member(j, "error"@) is Null }),
        x.args.decoded_from(member(j, "args"@)),
{
}

} // verus!
