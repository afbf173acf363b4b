//! Search your team's files and messages.
//!
//! For more information, see [Slack's API documentation](https://api.slack.com/methods).
use vstd::prelude::*;

use super::{
    ApiRequest,
    choice_pair,
    no_params,
    number_pair,
    push_opt_choice,
    push_opt_number,
    push_opt_text,
    push_text,
    request,
    text_pair,
};
use crate::json::{read_member, member, DecodeError, FromJson, Json, decodable, DecodeFailure, member_text};

verus! {

#[derive(Clone, Debug)]
pub struct SearchMatches<T> {
    pub total: u32,
    pub matches: Vec<T>,
    pub paging: super::Pagination,
}

impl<T: FromJson> FromJson for SearchMatches<T> {
    open spec fn decoded_from(&self, j: Json) -> bool {
        &&& j is Object
        &&& self.total.decoded_from(member(j, "total"@))
        &&& self.matches.decoded_from(member(j, "matches"@))
        &&& self.paging.decoded_from(member(j, "paging"@))
    }

    open spec fn failure(j: Json) -> DecodeFailure {
        if !(j is Object) {
            DecodeFailure::Malformed
        } else if !decodable::<u32>(member(j, "total"@)) {
            <u32 as FromJson>::failure(member(j, "total"@))
        } else if !decodable::<Vec<T>>(member(j, "matches"@)) {
            <Vec<T> as FromJson>::failure(member(j, "matches"@))
        } else if !decodable::<super::Pagination>(member(j, "paging"@)) {
            <super::Pagination as FromJson>::failure(member(j, "paging"@))
        } else {
            DecodeFailure::Malformed
        }
    }

    fn from_json(j: &Json) -> (r: Result<Self, DecodeError>) {
        if !j.is_object() {
            return Err(DecodeError::Malformed);
        }
        let total = read_member::<u32>(j, "total")?;
        let matches = read_member::<Vec<T>>(j, "matches")?;
        let paging = read_member::<super::Pagination>(j, "paging")?;
        Ok(SearchMatches { total, matches, paging })
    }
}

/// A `SearchMatches` read out of a JSON value: the value is an object and each field
/// holds the member of the same name (`null` for an absent optional one).
pub proof fn lemma_search_matches_members<T: FromJson>(j: Json, x: SearchMatches<T>)
    requires
        x.decoded_from(j),
    ensures
        j is Object,
        member(j, "total"@) == Json::Int(x.total as i128),
        x.matches.decoded_from(member(j, "matches"@)),
        x.paging.decoded_from(member(j, "paging"@)),
{
}

#[derive(Clone, Debug)]
pub struct MessageLink {
    pub user: String,
    pub username: String,
    pub ts: String,
    pub text: String,
}

impl FromJson for MessageLink {
    open spec fn decoded_from(&self, j: Json) -> bool {
        &&& j is Object
        &&& self.user.decoded_from(member(j, "user"@))
        &&& self.username.decoded_from(member(j, "username"@))
        &&& self.ts.decoded_from(member(j, "ts"@))
        &&& self.text.decoded_from(member(j, "text"@))
    }

    open spec fn failure(j: Json) -> DecodeFailure {
        if !(j is Object) {
            DecodeFailure::Malformed
        } else if !decodable::<String>(member(j, "user"@)) {
            <String as FromJson>::failure(member(j, "user"@))
        } else if !decodable::<String>(member(j, "username"@)) {
            <String as FromJson>::failure(member(j, "username"@))
        } else if !decodable::<String>(member(j, "ts"@)) {
            <String as FromJson>::failure(member(j, "ts"@))
        } else if !decodable::<String>(member(j, "text"@)) {
            <String as FromJson>::failure(member(j, "text"@))
        } else {
            DecodeFailure::Malformed
        }
    }

    fn from_json(j: &Json) -> (r: Result<Self, DecodeError>) {
        if !j.is_object() {
            return Err(DecodeError::Malformed);
        }
        let user = read_member::<String>(j, "user")?;
        let username = read_member::<String>(j, "username")?;
        let ts = read_member::<String>(j, "ts")?;
        let text = read_member::<String>(j, "text")?;
        Ok(MessageLink { user, username, ts, text })
    }
}

/// A `MessageLink` read out of a JSON value: the value is an object and each field
/// holds the member of the same name (`null` for an absent optional one).
pub proof fn lemma_message_link_members(j: Json, x: MessageLink)
    requires
        x.decoded_from(j),
    ensures
        j is Object,
        member_text(j, "user"@) == Some(x.user@),
        member_text(j, "username"@) == Some(x.username@),
        member_text(j, "ts"@) == Some(x.ts@),
        member_text(j, "text"@) == Some(x.text@),
{
}

#[derive(Clone, Debug)]
pub struct SearchMessageChannel {
    pub id: String,
    pub name: String,
}

impl FromJson for SearchMessageChannel {
    open spec fn decoded_from(&self, j: Json) -> bool {
        &&& j is Object
        &&& self.id.decoded_from(member(j, "id"@))
        &&& self.name.decoded_from(member(j, "name"@))
    }

    open spec fn failure(j: Json) -> DecodeFailure {
        if !(j is Object) {
            DecodeFailure::Malformed
        } else if !decodable::<String>(member(j, "id"@)) {
            <String as FromJson>::failure(member(j, "id"@))
        } else if !decodable::<String>(member(j, "name"@)) {
            <String as FromJson>::failure(member(j, "name"@))
        } else {
            DecodeFailure::Malformed
        }
    }

    fn from_json(j: &Json) -> (r: Result<Self, DecodeError>) {
        if !j.is_object() {
            return Err(DecodeError::Malformed);
        }
        let id = read_member::<String>(j, "id")?;
        let name = read_member::<String>(j, "name")?;
        Ok(SearchMessageChannel { id, name })
    }
}

/// A `SearchMessageChannel` read out of a JSON value: the value is an object and each field
/// holds the member of the same name (`null` for an absent optional one).
pub proof fn lemma_search_message_channel_members(j: Json, x: SearchMessageChannel)
    requires
        x.decoded_from(j),
    ensures
        j is Object,
        member_text(j, "id"@) == Some(x.id@),
        member_text(j, "name"@) == Some(x.name@),
{
}

#[derive(Clone, Debug)]
pub struct SearchMessage {
    pub user: String,
    pub username: String,
    pub ts: String,
    pub text: String,
    pub channel: SearchMessageChannel,
    pub permalink: String,
    pub previous: Option<MessageLink>,
    pub previous_2: Option<MessageLink>,
    pub next: Option<MessageLink>,
    pub next_2: Option<MessageLink>,
}

impl FromJson for SearchMessage {
    open spec fn decoded_from(&self, j: Json) -> bool {
        &&& j is Object
        &&& self.user.decoded_from(member(j, "user"@))
        &&& self.username.decoded_from(member(j, "username"@))
        &&& self.ts.decoded_from(member(j, "ts"@))
        &&& self.text.decoded_from(member(j, "text"@))
        &&& self.channel.decoded_from(member(j, "channel"@))
        &&& self.permalink.decoded_from(member(j, "permalink"@))
        &&& self.previous.decoded_from(member(j, "previous"@))
        &&& self.previous_2.decoded_from(member(j, "previous_2"@))
        &&& self.next.decoded_from(member(j, "next"@))
        &&& self.next_2.decoded_from(member(j, "next_2"@))
    }

    open spec fn failure(j: Json) -> DecodeFailure {
        if !(j is Object) {
            DecodeFailure::Malformed
        } else if !decodable::<String>(member(j, "user"@)) {
            <String as FromJson>::failure(member(j, "user"@))
        } else if !decodable::<String>(member(j, "username"@)) {
            <String as FromJson>::failure(member(j, "username"@))
        } else if !decodable::<String>(member(j, "ts"@)) {
            <String as FromJson>::failure(member(j, "ts"@))
        } else if !decodable::<String>(member(j, "text"@)) {
            <String as FromJson>::failure(member(j, "text"@))
        } else if !decodable::<SearchMessageChannel>(member(j, "channel"@)) {
            <SearchMessageChannel as FromJson>::failure(member(j, "channel"@))
        } else if !decodable::<String>(member(j, "permalink"@)) {
            <String as FromJson>::failure(member(j, "permalink"@))
        } else if !decodable::<Option<MessageLink>>(member(j, "previous"@)) {
            <Option<MessageLink> as FromJson>::failure(member(j, "previous"@))
        } else if !decodable::<Option<MessageLink>>(member(j, "previous_2"@)) {
            <Option<MessageLink> as FromJson>::failure(member(j, "previous_2"@))
        } else if !decodable::<Option<MessageLink>>(member(j, "next"@)) {
            <Option<MessageLink> as FromJson>::failure(member(j, "next"@))
        } else if !decodable::<Option<MessageLink>>(member(j, "next_2"@)) {
            <Option<MessageLink> as FromJson>::failure(member(j, "next_2"@))
        } else {
            DecodeFailure::Malformed
        }
    }

    fn from_json(j: &Json) -> (r: Result<Self, DecodeError>) {
        if !j.is_object() {
            return Err(DecodeError::Malformed);
        }
        let user = read_member::<String>(j, "user")?;
        let username = read_member::<String>(j, "username")?;
        let ts = read_member::<String>(j, "ts")?;
        let text = read_member::<String>(j, "text")?;
        let channel = read_member::<SearchMessageChannel>(j, "channel")?;
        let permalink = read_member::<String>(j, "permalink")?;
        let previous = read_member::<Option<MessageLink>>(j, "previous")?;
        let previous_2 = read_member::<Option<MessageLink>>(j, "previous_2")?;
        let next = read_member::<Option<MessageLink>>(j, "next")?;
        let next_2 = read_member::<Option<MessageLink>>(j, "next_2")?;
        Ok(SearchMessage {
            user,
            username,
            ts,
            text,
            channel,
            permalink,
            previous,
            previous_2,
            next,
            next_2,
        })
    }
}

/// A `SearchMessage` read out of a JSON value: the value is an object and each field
/// holds the member of the same name (`null` for an absent optional one).
pub proof fn lemma_search_message_members(j: Json, x: SearchMessage)
    requires
        x.decoded_from(j),
    ensures
        j is Object,
        member_text(j, "user"@) == Some(x.user@),
        member_text(j, "username"@) == Some(x.username@),
        member_text(j, "ts"@) == Some(x.ts@),
        member_text(j, "text"@) == Some(x.text@),
        x.channel.decoded_from(member(j, "channel"@)),
        member_text(j, "permalink"@) == Some(x.permalink@),
        x.previous.decoded_from(member(j, "previous"@)),
        x.previous_2.decoded_from(member(j, "previous_2"@)),
        x.next.decoded_from(member(j, "next"@)),
        x.next_2.decoded_from(member(j, "next_2"@)),
{
}

/// Searches for messages and files matching a query.
///
/// Wraps https://api.slack.com/methods/search.all
pub fn all(
    token: &str,
    query: &str,
    sort: Option<&str>,
    sort_dir: Option<&str>,
    highlight: Option<bool>,
    count: Option<u32>,
    page: Option<u32>,
) -> (r: ApiRequest)
    ensures
        r.method@ == "search.all"@,
        r.token@ == token@,
        r.pairs() == seq![("query"@, query@)]
            + text_pair("sort"@, sort)
            + text_pair("sort_dir"@, sort_dir)
            + choice_pair("highlight"@, highlight, "1"@, "0"@)
            + number_pair("count"@, count)
            + number_pair("page"@, page),
{
    let mut params = no_params();
    push_text(&mut params, "query", query);
    push_opt_text(&mut params, "sort", sort);
    push_opt_text(&mut params, "sort_dir", sort_dir);
    push_opt_choice(&mut params, "highlight", highlight, "1", "0");
    push_opt_number(&mut params, "count", count);
    push_opt_number(&mut params, "page", page);
    let r = request("search.all", token, params);
    assert(r.pairs() =~= seq![("query"@, query@)]
        + text_pair("sort"@, sort)
        + text_pair("sort_dir"@, sort_dir)
        + choice_pair("highlight"@, highlight, "1"@, "0"@)
        + number_pair("count"@, count)
        + number_pair("page"@, page));
    r
}

#[derive(Clone, Debug)]
pub struct AllResponse {
    pub query: String,
    pub messages: SearchMatches<SearchMessage>,
    pub files: SearchMatches<super::File>,
}

impl FromJson for AllResponse {
    open spec fn decoded_from(&self, j: Json) -> bool {
        &&& j is Object
        &&& self.query.decoded_from(member(j, "query"@))
        &&& self.messages.decoded_from(member(j, "messages"@))
        &&& self.files.decoded_from(member(j, "files"@))
    }

    open spec fn failure(j: Json) -> DecodeFailure {
        if !(j is Object) {
            DecodeFailure::Malformed
        } else if !decodable::<String>(member(j, "query"@)) {
            <String as FromJson>::failure(member(j, "query"@))
        } else if !decodable::<SearchMatches<SearchMessage>>(member(j, "messages"@)) {
            <SearchMatches<SearchMessage> as FromJson>::failure(member(j, "messages"@))
        } else if !decodable::<SearchMatches<super::File>>(member(j, "files"@)) {
            <SearchMatches<super::File> as FromJson>::failure(member(j, "files"@))
        } else {
            DecodeFailure::Malformed
        }
    }

    fn from_json(j: &Json) -> (r: Result<Self, DecodeError>) {
        if !j.is_object() {
            return Err(DecodeError::Malformed);
        }
        let query = read_member::<String>(j, "query")?;
        let messages = read_member::<SearchMatches<SearchMessage>>(j, "messages")?;
        let files = read_member::<SearchMatches<super::File>>(j, "files")?;
        Ok(AllResponse { query, messages, files })
    }
}

/// A `AllResponse` read out of a JSON value: the value is an object and each field
/// holds the member of the same name (`null` for an absent optional one).
pub proof fn lemma_all_response_members(j: Json, x: AllResponse)
    requires
        x.decoded_from(j),
    ensures
        j is Object,
        member_text(j, "query"@) == Some(x.query@),
        x.messages.decoded_from(member(j, "messages"@)),
        x.files.decoded_from(member(j, "files"@)),
{
}

/// Searches for files matching a query.
///
/// Wraps https://api.slack.com/methods/search.files
pub fn files(
    token: &str,
    query: &str,
    sort: Option<&str>,
    sort_dir: Option<&str>,
    highlight: Option<bool>,
    count: Option<u32>,
    page: Option<u32>,
) -> (r: ApiRequest)
    ensures
        r.method@ == "search.files"@,
        r.token@ == token@,
        r.pairs() == seq![("query"@, query@)]
            + text_pair("sort"@, sort)
            + text_pair("sort_dir"@, sort_dir)
            + choice_pair("highlight"@, highlight, "1"@, "0"@)
            + number_pair("count"@, count)
            + number_pair("page"@, page),
{
    let mut params = no_params();
    push_text(&mut params, "query", query);
    push_opt_text(&mut params, "sort", sort);
    push_opt_text(&mut params, "sort_dir", sort_dir);
    push_opt_choice(&mut params, "highlight", highlight, "1", "0");
    push_opt_number(&mut params, "count", count);
    push_opt_number(&mut params, "page", page);
    let r = request("search.files", token, params);
    assert(r.pairs() =~= seq![("query"@, query@)]
        + text_pair("sort"@, sort)
        + text_pair("sort_dir"@, sort_dir)
        + choice_pair("highlight"@, highlight, "1"@, "0"@)
        + number_pair("count"@, count)
        + number_pair("page"@, page));
    r
}

#[derive(Clone, Debug)]
pub struct FilesResponse {
    pub query: String,
    pub files: SearchMatches<super::File>,
}

impl FromJson for FilesResponse {
    open spec fn decoded_from(&self, j: Json) -> bool {
        &&& j is Object
        &&& self.query.decoded_from(member(j, "query"@))
        &&& self.files.decoded_from(member(j, "files"@))
    }

    open spec fn failure(j: Json) -> DecodeFailure {
        if !(j is Object) {
            DecodeFailure::Malformed
        } else if !decodable::<String>(member(j, "query"@)) {
            <String as FromJson>::failure(member(j, "query"@))
        } else if !decodable::<SearchMatches<super::File>>(member(j, "files"@)) {
            <SearchMatches<super::File> as FromJson>::failure(member(j, "files"@))
        } else {
            DecodeFailure::Malformed
        }
    }

    fn from_json(j: &Json) -> (r: Result<Self, DecodeError>) {
        if !j.is_object() {
            return Err(DecodeError::Malformed);
        }
        let query = read_member::<String>(j, "query")?;
        let files = read_member::<SearchMatches<super::File>>(j, "files")?;
        Ok(FilesResponse { query, files })
    }
}

/// A `FilesResponse` read out of a JSON value: the value is an object and each field
/// holds the member of the same name (`null` for an absent optional one).
pub proof fn lemma_files_response_members(j: Json, x: FilesResponse)
    requires
        x.decoded_from(j),
    ensures
        j is Object,
        member_text(j, "query"@) == Some(x.query@),
        x.files.decoded_from(member(j, "files"@)),
{
}

/// Searches for messages matching a query.
///
/// Wraps https://api.slack.com/methods/search.messages
pub fn messages(
    token: &str,
    query: &str,
    sort: Option<&str>,
    sort_dir: Option<&str>,
    highlight: Option<bool>,
    count: Option<u32>,
    page: Option<u32>,
) -> (r: ApiRequest)
    ensures
        r.method@ == "search.messages"@,
        r.token@ == token@,
        r.pairs() == seq![("query"@, query@)]
            + text_pair("sort"@, sort)
            + text_pair("sort_dir"@, sort_dir)
            + choice_pair("highlight"@, highlight, "1"@, "0"@)
            + number_pair("count"@, count)
            + number_pair("page"@, page),
{
    let mut params = no_params();
    push_text(&mut params, "query", query);
    push_opt_text(&mut params, "sort", sort);
    push_opt_text(&mut params, "sort_dir", sort_dir);
    push_opt_choice(&mut params, "highlight", highlight, "1", "0");
    push_opt_number(&mut params, "count", count);
    push_opt_number(&mut params, "page", page);
    let r = request("search.messages", token, params);
    assert(r.pairs() =~= seq![("query"@, query@)]
        + text_pair("sort"@, sort)
        + text_pair("sort_dir"@, sort_dir)
        + choice_pair("highlight"@, highlight, "1"@, "0"@)
        + number_pair("count"@, count)
        + number_pair("page"@, page));
    r
}

#[derive(Clone, Debug)]
pub struct MessagesResponse {
    pub query: String,
    pub messages: SearchMatches<SearchMessage>,
}

impl FromJson for MessagesResponse {
    open spec fn decoded_from(&self, j: Json) -> bool {
        &&& j is Object
        &&& self.query.decoded_from(member(j, "query"@))
        &&& self.messages.decoded_from(member(j, "messages"@))
    }

    open spec fn failure(j: Json) -> DecodeFailure {
        if !(j is Object) {
            DecodeFailure::Malformed
        } else if !decodable::<String>(member(j, "query"@)) {
            <String as FromJson>::failure(member(j, "query"@))
        } else if !decodable::<SearchMatches<SearchMessage>>(member(j, "messages"@)) {
            <SearchMatches<SearchMessage> as FromJson>::failure(member(j, "messages"@))
        } else {
            DecodeFailure::Malformed
        }
    }

    fn from_json(j: &Json) -> (r: Result<Self, DecodeError>) {
        if !j.is_object() {
            return Err(DecodeError::Malformed);
        }
        let query = read_member::<String>(j, "query")?;
        let messages = read_member::<SearchMatches<SearchMessage>>(j, "messages")?;
        Ok(MessagesResponse { query, messages })
    }
}

/// A `MessagesResponse` read out of a JSON value: the value is an object and each field
/// holds the member of the same name (`null` for an absent optional one).
pub proof fn lemma_messages_response_members(j: Json, x: MessagesResponse)
    requires
        x.decoded_from(j),
    ensures
        j is Object,
        member_text(j, "query"@) == Some(x.query@),
        x.messages.decoded_from(member(j, "messages"@)),
{
}

} // verus!
