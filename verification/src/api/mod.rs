//! The Slack Web API: the requests that each method sends and the types that
//! its answers are read into.
//!
//! A request is described by an [`ApiRequest`]: the method's name, the token
//! and the query parameters. The program that drives the library sends it to
//! `https://slack.com/api/<method>` and hands the JSON answer to
//! [`decode_response`].
use vstd::prelude::*;

use crate::error::Error;
use crate::json::{FromJson, Json, member, member_text, find_member};
use crate::string_map::{pairs_view, pairs_map, lemma_pairs_view_push};
use crate::text::{decimal, decimal_value, lemma_decimal_value, u32_text};

pub mod api;
pub mod auth;
pub mod channels;
pub mod chat;
pub mod emoji;
pub mod files;
pub mod groups;
pub mod im;
pub mod message_events;
pub mod pins;
pub mod reactions;
pub mod rtm;
pub mod search;
pub mod stars;
pub mod team;
pub mod types;
pub mod users;

pub use self::message_events::{EditedMessageData, Message};
pub use self::types::{
    Attachment, AttachmentField, Channel, Comment, File, Group, Im, Item, Pagination, Purpose,
    Reaction, StarredItem, Team, Topic, User, UserProfile,
};

verus! {

/// The outcome of a Web API call.
pub type ApiResult<T> = Result<T, Error>;

/// A call of a Web API method.
#[derive(Clone, Debug)]
pub struct ApiRequest {
    /// The method's name, such as `channels.history`.
    pub method: String,
    /// The token that authenticates the call.
    pub token: String,
    /// The query parameters, in the order in which they were added.
    pub params: Vec<(String, String)>,
}

impl ApiRequest {
    /// The address that the request goes to.
    pub fn url(&self) -> (u: String)
        ensures
            u@ == "https://slack.com/api/"@ + self.method@,
    {
        "https://slack.com/api/".to_owned().concat(self.method.as_str())
    }

    /// The query that the request sends: the token, then the parameters.
    pub fn query(&self) -> (q: Vec<(String, String)>)
        ensures
            pairs_view(q@) == seq![("token"@, self.token@)] + self.pairs(),
    {
        let mut q = no_params();
        push_text(&mut q, "token", self.token.as_str());
        let mut i: usize = 0;
        while i < self.params.len()
            invariant
                i <= self.params@.len(),
                pairs_view(q@) == seq![("token"@, self.token@)] + pairs_view(self.params@.take(i as int)),
            decreases self.params@.len() - i,
        {
            let p = (self.params[i].0.clone(), self.params[i].1.clone());
            proof {
                lemma_pairs_view_push(q@, p);
                assert(self.params@.take(i + 1) =~= self.params@.take(i as int).push(self.params@[i as int]));
                lemma_pairs_view_push(self.params@.take(i as int), self.params@[i as int]);
            }
            q.push(p);
            i = i + 1;
        }
        assert(self.params@.take(self.params@.len() as int) =~= self.params@);
        q
    }

    /// The parameters by the text they hold.
    pub open spec fn pairs(&self) -> Seq<(Seq<char>, Seq<char>)> {
        pairs_view(self.params@)
    }

    /// The parameters as a map from name to value.
    pub open spec fn param_map(&self) -> Map<Seq<char>, Seq<char>> {
        pairs_map(self.pairs())
    }
}

/// The parameter `key=value` when `value` is given, else nothing.
pub open spec fn text_pair(key: Seq<char>, value: Option<&str>) -> Seq<(Seq<char>, Seq<char>)> {
    match value {
        Some(v) => seq![(key, v@)],
        None => seq![],
    }
}

/// The parameter `key` set to `yes` or `no` when a flag is given, else nothing.
pub open spec fn choice_pair(key: Seq<char>, value: Option<bool>, yes: Seq<char>, no: Seq<char>) -> Seq<
    (Seq<char>, Seq<char>),
> {
    match value {
        Some(b) => seq![(key, if b { yes } else { no })],
        None => seq![],
    }
}

/// The parameter `key` set to the decimal form of a number when one is given,
/// else nothing.
pub open spec fn number_pair(key: Seq<char>, value: Option<u32>) -> Seq<(Seq<char>, Seq<char>)> {
    match value {
        Some(n) => seq![(key, decimal(n as nat))],
        None => seq![],
    }
}

/// An optional parameter is sent once when given and not at all when absent:
/// text as it is, a flag as the word for its value, a number in decimal
/// (whose digits read back as the number).
pub proof fn lemma_optional_parameters(key: Seq<char>, text: &str, flag: bool, yes: Seq<char>, no: Seq<char>, n: u32)
    ensures
        text_pair(key, Some(text)) == seq![(key, text@)],
        text_pair(key, None) == Seq::<(Seq<char>, Seq<char>)>::empty(),
        choice_pair(key, Some(true), yes, no) == seq![(key, yes)],
        choice_pair(key, Some(false), yes, no) == seq![(key, no)],
        choice_pair(key, None, yes, no) == Seq::<(Seq<char>, Seq<char>)>::empty(),
        number_pair(key, Some(n)).len() == 1,
        number_pair(key, Some(n))[0].0 == key,
        decimal_value(number_pair(key, Some(n))[0].1) == n,
        number_pair(key, None) == Seq::<(Seq<char>, Seq<char>)>::empty(),
{
    lemma_decimal_value(n as nat);
}

/// An empty list of parameters.
pub fn no_params() -> (params: Vec<(String, String)>)
    ensures
        pairs_view(params@) == Seq::<(Seq<char>, Seq<char>)>::empty(),
{
    let params: Vec<(String, String)> = Vec::new();
    assert(pairs_view(params@) =~= Seq::<(Seq<char>, Seq<char>)>::empty());
    params
}

/// Adds parameter `key=value`.
pub fn push_text(params: &mut Vec<(String, String)>, key: &str, value: &str)
    ensures
        pairs_view(final(params)@) == pairs_view(old(params)@).push((key@, value@)),
{
    let p = (key.to_owned(), value.to_owned());
    proof {
        lemma_pairs_view_push(params@, p);
    }
    params.push(p);
}

/// Adds parameter `key=value` when `value` is given.
pub fn push_opt_text(params: &mut Vec<(String, String)>, key: &str, value: Option<&str>)
    ensures
        pairs_view(final(params)@) == pairs_view(old(params)@) + text_pair(key@, value),
{
    match value {
        Some(v) => push_text(params, key, v),
        None => {},
    }
    assert(pairs_view(params@) =~= pairs_view(old(params)@) + text_pair(key@, value));
}

/// Adds parameter `key` set to `yes` or `no` when a flag is given.
pub fn push_opt_choice(
    params: &mut Vec<(String, String)>,
    key: &str,
    value: Option<bool>,
    yes: &str,
    no: &str,
)
    ensures
        pairs_view(final(params)@) == pairs_view(old(params)@) + choice_pair(key@, value, yes@, no@),
{
    match value {
        Some(b) => push_text(params, key, if b { yes } else { no }),
        None => {},
    }
    assert(pairs_view(params@) =~= pairs_view(old(params)@) + choice_pair(key@, value, yes@, no@));
}

/// Adds parameter `key` set to the decimal form of a number when one is given.
pub fn push_opt_number(params: &mut Vec<(String, String)>, key: &str, value: Option<u32>)
    ensures
        pairs_view(final(params)@) == pairs_view(old(params)@) + number_pair(key@, value),
{
    match value {
        Some(n) => {
            let text = u32_text(n);
            push_text(params, key, text.as_str());
        },
        None => {},
    }
    assert(pairs_view(params@) =~= pairs_view(old(params)@) + number_pair(key@, value));
}

/// A call of `method` with `token` and `params`.
pub fn request(method: &str, token: &str, params: Vec<(String, String)>) -> (r: ApiRequest)
    ensures
        r.method@ == method@,
        r.token@ == token@,
        r.params@ == params@,
{
    ApiRequest { method: method.to_owned(), token: token.to_owned(), params }
}

/// The error text of an answer: its `error` member, or nothing.
pub open spec fn api_error_text(j: Json) -> Seq<char> {
    match member_text(j, "error"@) {
        Some(t) => t,
        None => Seq::empty(),
    }
}

/// Reads the answer `j` of a Web API call: a `T` when its `ok` member is
/// `true`, the error that Slack reported when it is `false`.
pub fn decode_response<T: FromJson>(j: &Json) -> (r: ApiResult<T>)
    ensures
        match r {
            Ok(x) => member(*j, "ok"@) == Json::Bool(true) && x.decoded_from(*j),
            Err(Error::Api(msg)) => member(*j, "ok"@) == Json::Bool(false) && msg@ == api_error_text(*j),
            Err(Error::Decode(e)) => {
                ||| !(member(*j, "ok"@) is Bool) && e is Malformed
                ||| member(*j, "ok"@) == Json::Bool(true) && (forall|x: T| !x.decoded_from(*j)) && e@
                    == T::failure(*j)
            },
            Err(_) => false,
        },
{
    let ok = match find_member(j, "ok") {
        Some(Json::Bool(b)) => *b,
        _ => {
            return Err(Error::Decode(crate::json::DecodeError::Malformed));
        },
    };
    if !ok {
        let msg = match crate::json::member_str(j, "error") {
            Some(t) => t.clone(),
            None => String::new(),
        };
        return Err(Error::Api(msg));
    }
    match T::from_json(j) {
        Ok(x) => Ok(x),
        Err(e) => Err(Error::Decode(e)),
    }
}

} // verus!
